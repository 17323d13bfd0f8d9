# turs_ws

A small WebSocket client and server toolkit whose decisions are verified with Verus.

- `src/` is the verified library:
  - `client.rs`: the client's settings and its connection loop as a state machine
    (connect, retry after a pause, give up after too many failures in a row, pass
    messages on, reconnect when a connection drops), with the laws of its reconnect policy.
  - `server.rs`: the server's settings, peers and their ids, and the decisions of the
    reading and writing side of each connection and of the accept loop.
  - `registry.rs`: the table of connected peers keyed by address, with read-after-write
    laws and the set of peers a broadcast reaches.
  - `naming.rs`: decimal rendering of ports and peer ids.
  - `addr.rs`, `frame.rs`: socket addresses and WebSocket messages as plain values.
- `app/` runs the sockets, tasks, queues and handlers around the library.
- `tests/` exercises the library on concrete values.
