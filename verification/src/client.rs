use vstd::prelude::*;
use crate::frame::Frame;

verus! {

/// How long the client waits before it tries to connect again after a failed
/// attempt (handed to the program's sleep).
pub const RECONNECT_INTERVAL: u64 = 5;

/// How many failed attempts in a row the client retries before it gives up.
pub const MAX_RECONNECTS: u64 = 5;

/// How many outgoing messages the client queues before `send` waits.
pub const OUTGOING_CAPACITY: usize = 100;

/// The settings of a client: where it connects, the tag it logs under, and
/// its reconnect policy.
#[derive(Clone, Debug)]
pub struct Ws {
    pub url: String,
    pub tag: String,
    pub reconnect_interval: u64,
    pub max_reconnects: u64,
}

/// Where the client's connection stands.
#[derive(Clone, Copy, Debug, PartialEq, Eq, Structural)]
pub enum Link {
    /// An attempt to connect is under way (or about to start).
    Connecting,
    /// Connected: messages flow both ways.
    Open,
    /// The client gave up after too many failed attempts.
    Stopped,
}

/// The state of the client's connection loop: where the connection stands and
/// how many attempts in a row have failed.
#[derive(Clone, Copy, Debug, PartialEq, Eq, Structural)]
pub struct Session {
    pub link: Link,
    pub reconnects: u64,
}

/// What happened since the last decision of the connection loop.
#[derive(Clone, Debug, PartialEq, Eq)]
pub enum Event {
    /// The attempt to connect succeeded.
    Connected,
    /// The attempt to connect failed.
    ConnectFailed,
    /// A message arrived from the server.
    Received(Frame),
    /// Reading from the server reported an error.
    ReadFailed,
    /// The stream from the server ended.
    StreamEnded,
    /// A message to send was taken from the outgoing queue.
    Queued,
    /// The outgoing queue was closed.
    QueueClosed,
    /// The message taken from the queue was sent.
    Sent,
    /// Sending the message taken from the queue failed.
    SendFailed,
}

/// What the connection loop does next.
#[derive(Clone, Debug, PartialEq, Eq)]
pub enum Action {
    /// Try to connect to the url.
    Connect,
    /// Sleep this long, then try to connect again.
    Retry(u64),
    /// Give up: the connection loop ends.
    GiveUp,
    /// Wait for the next message from either side.
    Wait,
    /// Hand this text to the text handler, if one is set, then wait.
    DeliverText(String),
    /// Hand these bytes to the binary handler, if one is set, then wait.
    DeliverBinary(Vec<u8>),
    /// Send the message taken from the queue to the server.
    Transmit,
}

/// A well-formed session: the failure count stays within the limit, and it is
/// zero while the connection is open.
pub open spec fn session_ok(max: u64, s: Session) -> bool {
    &&& s.reconnects <= max
    &&& (s.link == Link::Open ==> s.reconnects == 0)
}

/// The session in which the connection loop starts.
pub open spec fn initial_session() -> Session {
    Session { link: Link::Connecting, reconnects: 0 }
}

/// The decision of the connection loop: the next session and the action for a
/// session and an event.
pub open spec fn next(max: u64, interval: u64, s: Session, e: Event) -> (Session, Action) {
    match s.link {
        Link::Stopped => (s, Action::GiveUp),
        Link::Connecting => match e {
            Event::Connected => (Session { link: Link::Open, reconnects: 0 }, Action::Wait),
            Event::ConnectFailed => if s.reconnects >= max {
                (Session { link: Link::Stopped, reconnects: s.reconnects }, Action::GiveUp)
            } else {
                (
                    Session { link: Link::Connecting, reconnects: (s.reconnects + 1) as u64 },
                    Action::Retry(interval),
                )
            },
            _ => (s, Action::Wait),
        },
        Link::Open => match e {
            Event::Received(Frame::Text(t)) => (s, Action::DeliverText(t)),
            Event::Received(Frame::Binary(b)) => (s, Action::DeliverBinary(b)),
            Event::Received(Frame::Close(_)) => (
                Session { link: Link::Connecting, reconnects: s.reconnects },
                Action::Connect,
            ),
            Event::StreamEnded | Event::QueueClosed | Event::SendFailed => (
                Session { link: Link::Connecting, reconnects: s.reconnects },
                Action::Connect,
            ),
            Event::Queued => (s, Action::Transmit),
            _ => (s, Action::Wait),
        },
    }
}

impl Ws {
    /// The settings of a client of `url` that logs under `tag`, with the
    /// default reconnect policy.
    pub fn new(url: &str, tag: &str) -> (ws: Ws)
        ensures
            ws.url@ == url@,
            ws.tag@ == tag@,
            ws.reconnect_interval == RECONNECT_INTERVAL,
            ws.max_reconnects == MAX_RECONNECTS,
    {
        Ws {
            url: String::from_str(url),
            tag: String::from_str(tag),
            reconnect_interval: RECONNECT_INTERVAL,
            max_reconnects: MAX_RECONNECTS,
        }
    }

    /// The tag the client logs under.
    pub fn tag(&self) -> (t: String)
        ensures
            t@ == self.tag@,
    {
        self.tag.clone()
    }

    /// Whether `s` is a well-formed session for these settings, which `step`
    /// asks of its session.
    pub fn valid_session(&self, s: &Session) -> (b: bool)
        ensures
            b == session_ok(self.max_reconnects, *s),
    {
        s.reconnects <= self.max_reconnects && (s.link != Link::Open || s.reconnects == 0)
    }

    /// The first session of the connection loop and its first action: connect.
    pub fn start(&self) -> (r: (Session, Action))
        ensures
            r.0 == initial_session(),
            r.1 == Action::Connect,
            session_ok(self.max_reconnects, r.0),
    {
        (Session { link: Link::Connecting, reconnects: 0 }, Action::Connect)
    }

    /// One decision of the connection loop.
    pub fn step(&self, s: Session, e: Event) -> (r: (Session, Action))
        requires
            session_ok(self.max_reconnects, s),
        ensures
            r == next(self.max_reconnects, self.reconnect_interval, s, e),
            session_ok(self.max_reconnects, r.0),
    {
        match s.link {
            Link::Stopped => (s, Action::GiveUp),
            Link::Connecting => match e {
                Event::Connected => (Session { link: Link::Open, reconnects: 0 }, Action::Wait),
                Event::ConnectFailed => {
                    if s.reconnects >= self.max_reconnects {
                        (Session { link: Link::Stopped, reconnects: s.reconnects }, Action::GiveUp)
                    } else {
                        (
                            Session { link: Link::Connecting, reconnects: s.reconnects + 1 },
                            Action::Retry(self.reconnect_interval),
                        )
                    }
                },
                _ => (s, Action::Wait),
            },
            Link::Open => match e {
                Event::Received(Frame::Text(t)) => (s, Action::DeliverText(t)),
                Event::Received(Frame::Binary(b)) => (s, Action::DeliverBinary(b)),
                Event::Received(Frame::Close(_)) => (
                    Session { link: Link::Connecting, reconnects: s.reconnects },
                    Action::Connect,
                ),
                Event::StreamEnded | Event::QueueClosed | Event::SendFailed => (
                    Session { link: Link::Connecting, reconnects: s.reconnects },
                    Action::Connect,
                ),
                Event::Queued => (s, Action::Transmit),
                _ => (s, Action::Wait),
            },
        }
    }
}

/// The session after `n` failed attempts in a row, starting from `s`.
pub open spec fn after_failures(max: u64, interval: u64, s: Session, n: nat) -> Session
    decreases n,
{
    if n == 0 {
        s
    } else {
        next(max, interval, after_failures(max, interval, s, (n - 1) as nat), Event::ConnectFailed).0
    }
}

/// The session after the connection loop has taken `events`, in order, from `s`.
pub open spec fn run(max: u64, interval: u64, s: Session, events: Seq<Event>) -> Session
    decreases events.len(),
{
    if events.len() == 0 {
        s
    } else {
        next(max, interval, run(max, interval, s, events.drop_last()), events.last()).0
    }
}

/// The events on which an open connection is dropped and the client connects anew.
pub open spec fn drops_connection(e: Event) -> bool {
    match e {
        Event::Received(Frame::Close(_)) => true,
        Event::StreamEnded | Event::QueueClosed | Event::SendFailed => true,
        _ => false,
    }
}

/// Every decision keeps the session well-formed.
pub proof fn law_next_keeps_session_ok(max: u64, interval: u64, s: Session, e: Event)
    requires
        session_ok(max, s),
    ensures
        session_ok(max, next(max, interval, s, e).0),
{
}

/// However the events come, the session stays well-formed: the count of
/// failed attempts never passes the limit.
pub proof fn law_run_keeps_session_ok(max: u64, interval: u64, s: Session, events: Seq<Event>)
    requires
        session_ok(max, s),
    ensures
        session_ok(max, run(max, interval, s, events)),
    decreases events.len(),
{
    if events.len() > 0 {
        law_run_keeps_session_ok(max, interval, s, events.drop_last());
        law_next_keeps_session_ok(max, interval, run(max, interval, s, events.drop_last()), events.last());
    }
}

/// Once the client has given up, no event brings it back.
pub proof fn law_stopped_is_final(max: u64, interval: u64, s: Session, events: Seq<Event>)
    requires
        s.link == Link::Stopped,
    ensures
        run(max, interval, s, events) == s,
    decreases events.len(),
{
    if events.len() > 0 {
        law_stopped_is_final(max, interval, s, events.drop_last());
    }
}

/// Failed attempts in a row: starting with `c` failures counted, after `n`
/// more the client is still trying, with `c + n` failures counted, as long as
/// `c + n` is within the limit, and has given up otherwise; the `n`-th failure
/// is answered by a retry after the reconnect interval while `c + n` is within
/// the limit, and by giving up otherwise.
pub proof fn law_failures_then_give_up(max: u64, interval: u64, c: u64, n: nat)
    requires
        c <= max,
    ensures
        after_failures(max, interval, Session { link: Link::Connecting, reconnects: c }, n) == (
        if c + n <= max {
            Session { link: Link::Connecting, reconnects: (c + n) as u64 }
        } else {
            Session { link: Link::Stopped, reconnects: max }
        }),
        n >= 1 ==> next(
            max,
            interval,
            after_failures(
                max,
                interval,
                Session { link: Link::Connecting, reconnects: c },
                (n - 1) as nat,
            ),
            Event::ConnectFailed,
        ).1 == (if c + n <= max {
            Action::Retry(interval)
        } else {
            Action::GiveUp
        }),
    decreases n,
{
    if n >= 1 {
        law_failures_then_give_up(max, interval, c, (n - 1) as nat);
    }
}

/// From the start, the client gives up exactly at the failed attempt that
/// follows `max` failed retries: after `n` failures in a row it has stopped
/// if and only if `n` is more than the limit.
pub proof fn law_gives_up_after_max_retries(max: u64, interval: u64, n: nat)
    ensures
        (after_failures(max, interval, initial_session(), n).link == Link::Stopped) <==> n > max,
{
    law_failures_then_give_up(max, interval, 0, n);
}

/// A successful connection clears the count of failed attempts.
pub proof fn law_connect_resets_failures(max: u64, interval: u64, s: Session)
    requires
        session_ok(max, s),
        s.link == Link::Connecting,
    ensures
        next(max, interval, s, Event::Connected) == (
        Session { link: Link::Open, reconnects: 0 },
        Action::Wait,
        ),
{
}

/// A dropped connection is followed by an immediate new attempt with the full
/// budget of retries: the client then gives up only after `max + 1` further
/// failures in a row.
pub proof fn law_drop_reconnects_with_full_budget(
    max: u64,
    interval: u64,
    s: Session,
    e: Event,
    n: nat,
)
    requires
        session_ok(max, s),
        s.link == Link::Open,
        drops_connection(e),
    ensures
        next(max, interval, s, e) == (initial_session(), Action::Connect),
        (after_failures(max, interval, next(max, interval, s, e).0, n).link == Link::Stopped)
            <==> n > max,
{
    law_gives_up_after_max_retries(max, interval, n);
}

/// Messages pass through unchanged: while the connection is open, an arriving
/// text or binary message is handed on as it came, and a queued message is
/// sent, the session staying as it was.
pub proof fn law_open_connection_passes_messages(
    max: u64,
    interval: u64,
    s: Session,
    t: String,
    b: Vec<u8>,
)
    requires
        session_ok(max, s),
        s.link == Link::Open,
    ensures
        next(max, interval, s, Event::Received(Frame::Text(t))) == (s, Action::DeliverText(t)),
        next(max, interval, s, Event::Received(Frame::Binary(b))) == (s, Action::DeliverBinary(b)),
        next(max, interval, s, Event::Queued) == (s, Action::Transmit),
{
}

/// An open connection stays open on everything but a close message, the end
/// of the stream, a closed queue or a failed send: the session is unchanged.
/// Pings, pongs and raw frames, whatever their payload, read errors and
/// completed sends are answered by waiting for the next message.
pub proof fn law_open_connection_survives_other_events(
    max: u64,
    interval: u64,
    s: Session,
    e: Event,
    p: Vec<u8>,
)
    requires
        session_ok(max, s),
        s.link == Link::Open,
    ensures
        !(e matches Event::Received(Frame::Close(_)) || e is StreamEnded || e is QueueClosed
            || e is SendFailed) ==> next(max, interval, s, e).0 == s,
        next(max, interval, s, Event::Received(Frame::Ping(p))) == (s, Action::Wait),
        next(max, interval, s, Event::Received(Frame::Pong(p))) == (s, Action::Wait),
        next(max, interval, s, Event::Received(Frame::Raw)) == (s, Action::Wait),
        next(max, interval, s, Event::ReadFailed) == (s, Action::Wait),
        next(max, interval, s, Event::Sent) == (s, Action::Wait),
{
}

} // verus!
