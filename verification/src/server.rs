use vstd::prelude::*;
use crate::addr::PeerAddr;
use crate::frame::{CloseInfo, Frame};
use crate::naming::{peer_id, peer_id_of};
use crate::registry::{recipients, PeerTable};

verus! {

/// How many outgoing messages a peer queues before `send` waits.
pub const PEER_QUEUE_CAPACITY: usize = 100;

/// A JSON value, carried through untouched.
#[verifier::external_type_specification]
#[verifier::external_body]
pub struct ExJsonValue(serde_json::Value);

/// A message from a client: an event name and its data.
#[derive(Debug, PartialEq, Eq)]
pub struct Msg {
    pub ev: String,
    pub data: serde_json::Value,
}

/// The settings of a server: the address it listens on.
#[derive(Clone, Debug)]
pub struct WsServer {
    pub url: String,
}

/// A connected client, as the server knows it: its id and its address.
#[derive(Clone, Debug)]
pub struct Peer {
    pub id: String,
    pub addr: PeerAddr,
}

/// What happened on the reading side of a connection.
#[derive(Debug, PartialEq, Eq)]
pub enum Incoming {
    /// A message arrived from the client.
    Frame(Frame),
    /// Reading from the client reported an error.
    ReadFailed,
    /// The stream from the client ended.
    Ended,
    /// The text of a text message read as a `Msg`.
    Parsed(Msg),
    /// The text of a text message did not read as a `Msg`.
    Unparsed(String),
}

/// What the reading side of a connection does next.
#[derive(Debug, PartialEq, Eq)]
pub enum Reaction {
    /// Read this text as a `Msg` and report how that went.
    Parse(String),
    /// Hand the message to the peer's handler, if one is set, and read on.
    Dispatch(Msg),
    /// Report a text that is not a `Msg`, and read on.
    ReportInvalid(String),
    /// Report a close message, and read on.
    ReportClose(Option<CloseInfo>),
    /// Report a message of another kind, and read on.
    ReportOther(Frame),
    /// Read on.
    Ignore,
    /// The client is gone: take it out of the table.
    Disconnect,
}

/// What happened on the writing side of a connection.
#[derive(Clone, Copy, Debug, PartialEq, Eq, Structural)]
pub enum Outgoing {
    /// A message for the client was taken from its queue.
    Queued,
    /// The client's queue was closed.
    QueueClosed,
    /// The message was sent to the client.
    Sent,
    /// Sending the message to the client failed.
    SendFailed,
}

/// What the writing side of a connection does next.
#[derive(Clone, Copy, Debug, PartialEq, Eq, Structural)]
pub enum Forwarding {
    /// Send the message taken from the queue to the client.
    Transmit,
    /// Wait for the next message in the queue.
    Continue,
    /// Stop forwarding.
    Stop,
    /// Take the client out of the table and stop forwarding.
    Evict,
}

/// What the accept loop of a server does next.
#[derive(Clone, Copy, Debug, PartialEq, Eq, Structural)]
pub enum Accepting {
    /// Serve the connection just accepted, and accept the next.
    Serve,
    /// Stop accepting: empty the table of peers and return.
    Shutdown,
}

/// The decision of the reading side of a connection.
pub open spec fn reaction(e: Incoming) -> Reaction {
    match e {
        Incoming::Frame(Frame::Text(t)) => Reaction::Parse(t),
        Incoming::Frame(Frame::Close(c)) => Reaction::ReportClose(c),
        Incoming::Frame(f) => Reaction::ReportOther(f),
        Incoming::ReadFailed => Reaction::Ignore,
        Incoming::Ended => Reaction::Disconnect,
        Incoming::Parsed(m) => Reaction::Dispatch(m),
        Incoming::Unparsed(t) => Reaction::ReportInvalid(t),
    }
}

/// The decision of the writing side of a connection.
pub open spec fn forwarding(e: Outgoing) -> Forwarding {
    match e {
        Outgoing::Queued => Forwarding::Transmit,
        Outgoing::QueueClosed => Forwarding::Stop,
        Outgoing::Sent => Forwarding::Continue,
        Outgoing::SendFailed => Forwarding::Evict,
    }
}

impl WsServer {
    /// The settings of a server that listens on `url`.
    pub fn new(url: &str) -> (s: WsServer)
        ensures
            s.url@ == url@,
    {
        WsServer { url: String::from_str(url) }
    }

    /// The decision of the accept loop: serve each accepted connection, and
    /// shut down when accepting fails.
    pub fn accept_step(&self, accepted: bool) -> (a: Accepting)
        ensures
            a == (if accepted { Accepting::Serve } else { Accepting::Shutdown }),
    {
        if accepted {
            Accepting::Serve
        } else {
            Accepting::Shutdown
        }
    }
}

impl Peer {
    /// The peer that connected from `addr`, named after its port, as in
    /// `peer__8080`.
    pub fn new(addr: PeerAddr) -> (p: Peer)
        ensures
            p.addr == addr,
            p.id@ == peer_id_of(addr.port),
    {
        Peer { id: peer_id(addr.port()), addr }
    }

    /// The peers of `peers` that a broadcast from this peer reaches: every
    /// peer in the table but the one under this peer's address, in table
    /// order.
    pub fn broadcast_targets<'a, V>(&self, peers: &'a PeerTable<V>) -> (r: Vec<&'a V>)
        ensures
            r@.len() == recipients(peers@, self.addr).len(),
            forall|i: int| 0 <= i < r@.len() ==> *r@[i] == recipients(peers@, self.addr)[i],
    {
        peers.recipients(&self.addr)
    }

    /// The decision of the reading side of this peer's connection.
    pub fn react(&self, e: Incoming) -> (r: Reaction)
        ensures
            r == reaction(e),
    {
        match e {
            Incoming::Frame(Frame::Text(t)) => Reaction::Parse(t),
            Incoming::Frame(Frame::Close(c)) => Reaction::ReportClose(c),
            Incoming::Frame(f) => Reaction::ReportOther(f),
            Incoming::ReadFailed => Reaction::Ignore,
            Incoming::Ended => Reaction::Disconnect,
            Incoming::Parsed(m) => Reaction::Dispatch(m),
            Incoming::Unparsed(t) => Reaction::ReportInvalid(t),
        }
    }

    /// The decision of the writing side of this peer's connection.
    pub fn forward(&self, e: Outgoing) -> (r: Forwarding)
        ensures
            r == forwarding(e),
    {
        match e {
            Outgoing::Queued => Forwarding::Transmit,
            Outgoing::QueueClosed => Forwarding::Stop,
            Outgoing::Sent => Forwarding::Continue,
            Outgoing::SendFailed => Forwarding::Evict,
        }
    }
}

/// Every text message from a client is handed to the parser as it came,
/// whatever its characters.
pub proof fn law_every_text_is_parsed(t: String)
    ensures
        reaction(Incoming::Frame(Frame::Text(t))) == Reaction::Parse(t),
{
}

/// Every message that parsed is dispatched to the handler unchanged,
/// whatever its event name or data.
pub proof fn law_every_parsed_message_is_dispatched(m: Msg)
    ensures
        reaction(Incoming::Parsed(m)) == Reaction::Dispatch(m),
{
}

/// Only the end of the stream disconnects a client: every other event keeps
/// the connection being read. Text that does not parse is reported as it
/// came, close messages are reported with their close frame, binary, ping,
/// pong and raw frames are reported as other messages whatever their payload,
/// and read errors are ignored.
pub proof fn law_only_stream_end_disconnects(e: Incoming, t: String, b: Vec<u8>, c: Option<CloseInfo>)
    ensures
        (reaction(e) == Reaction::Disconnect) <==> e is Ended,
        reaction(Incoming::Unparsed(t)) == Reaction::ReportInvalid(t),
        reaction(Incoming::Frame(Frame::Close(c))) == Reaction::ReportClose(c),
        reaction(Incoming::Frame(Frame::Binary(b))) == Reaction::ReportOther(Frame::Binary(b)),
        reaction(Incoming::Frame(Frame::Ping(b))) == Reaction::ReportOther(Frame::Ping(b)),
        reaction(Incoming::Frame(Frame::Pong(b))) == Reaction::ReportOther(Frame::Pong(b)),
        reaction(Incoming::Frame(Frame::Raw)) == Reaction::ReportOther(Frame::Raw),
        reaction(Incoming::ReadFailed) == Reaction::Ignore,
{
}

/// The writing side sends every queued message, waits after each completed
/// send, stops when the queue closes, and takes the client out of the table
/// exactly when a send fails.
pub proof fn law_forwarding(e: Outgoing)
    ensures
        (forwarding(e) == Forwarding::Evict) <==> e == Outgoing::SendFailed,
        (forwarding(e) == Forwarding::Stop) <==> e == Outgoing::QueueClosed,
        (forwarding(e) == Forwarding::Transmit) <==> e == Outgoing::Queued,
        (forwarding(e) == Forwarding::Continue) <==> e == Outgoing::Sent,
{
}

} // verus!
