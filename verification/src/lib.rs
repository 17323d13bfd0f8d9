//! Verified core of a small WebSocket client/server toolkit: the reconnect
//! policy of the client, the per-connection decisions of the server, the
//! table of connected peers, and the naming of peers.
pub mod addr;
pub mod naming;
pub mod frame;
pub mod client;
pub mod registry;
pub mod server;
