use turs_ws::client::{
    Action, Event, Link, Session, Ws, MAX_RECONNECTS, OUTGOING_CAPACITY, RECONNECT_INTERVAL,
};
use turs_ws::frame::{CloseInfo, Frame};

fn open() -> Session {
    Session { link: Link::Open, reconnects: 0 }
}

#[test]
fn new_keeps_url_and_tag_with_default_policy() {
    let ws = Ws::new("ws://localhost:5000", "[my_ws]");
    assert_eq!(ws.url, "ws://localhost:5000");
    assert_eq!(ws.tag, "[my_ws]");
    assert_eq!(ws.reconnect_interval, 5);
    assert_eq!(ws.max_reconnects, 5);
    assert_eq!(RECONNECT_INTERVAL, 5);
    assert_eq!(MAX_RECONNECTS, 5);
    assert_eq!(OUTGOING_CAPACITY, 100);
}

#[test]
fn tag_returns_the_tag() {
    let ws = Ws::new("ws://127.0.0.1:5000", "test");
    assert_eq!(ws.tag(), "test");
}

#[test]
fn start_connects_with_no_failures() {
    let ws = Ws::new("ws://x", "t");
    let (s, a) = ws.start();
    assert_eq!(s, Session { link: Link::Connecting, reconnects: 0 });
    assert_eq!(a, Action::Connect);
}

#[test]
fn gives_up_at_the_sixth_failure_in_a_row() {
    let ws = Ws::new("ws://x", "t");
    let (mut s, _) = ws.start();
    for k in 1..=5u64 {
        let (s2, a) = ws.step(s, Event::ConnectFailed);
        assert_eq!(a, Action::Retry(5));
        assert_eq!(s2, Session { link: Link::Connecting, reconnects: k });
        s = s2;
    }
    let (s2, a) = ws.step(s, Event::ConnectFailed);
    assert_eq!(a, Action::GiveUp);
    assert_eq!(s2.link, Link::Stopped);
}

#[test]
fn stopped_stays_stopped() {
    let ws = Ws::new("ws://x", "t");
    let stopped = Session { link: Link::Stopped, reconnects: 5 };
    for e in [Event::Connected, Event::ConnectFailed, Event::Queued, Event::StreamEnded] {
        let (s, a) = ws.step(stopped, e);
        assert_eq!(s, stopped);
        assert_eq!(a, Action::GiveUp);
    }
}

#[test]
fn connecting_resets_the_failure_count() {
    let ws = Ws::new("ws://x", "t");
    let s = Session { link: Link::Connecting, reconnects: 4 };
    let (s2, a) = ws.step(s, Event::Connected);
    assert_eq!(s2, open());
    assert_eq!(a, Action::Wait);
}

#[test]
fn text_and_binary_are_delivered_unchanged() {
    let ws = Ws::new("ws://x", "t");
    let (s, a) = ws.step(open(), Event::Received(Frame::Text("hello".to_string())));
    assert_eq!(s, open());
    assert_eq!(a, Action::DeliverText("hello".to_string()));
    let (s, a) = ws.step(open(), Event::Received(Frame::Binary(vec![1, 2, 3])));
    assert_eq!(s, open());
    assert_eq!(a, Action::DeliverBinary(vec![1, 2, 3]));
}

#[test]
fn other_frames_and_read_errors_are_ignored() {
    let ws = Ws::new("ws://x", "t");
    for f in [Frame::Ping(vec![1]), Frame::Pong(vec![]), Frame::Raw] {
        let (s, a) = ws.step(open(), Event::Received(f));
        assert_eq!(s, open());
        assert_eq!(a, Action::Wait);
    }
    let (s, a) = ws.step(open(), Event::ReadFailed);
    assert_eq!(s, open());
    assert_eq!(a, Action::Wait);
}

#[test]
fn dropped_connection_reconnects_at_once() {
    let ws = Ws::new("ws://x", "t");
    let drops = [
        Event::Received(Frame::Close(None)),
        Event::Received(Frame::Close(Some(CloseInfo { code: 1000, reason: "bye".to_string() }))),
        Event::StreamEnded,
        Event::QueueClosed,
        Event::SendFailed,
    ];
    for e in drops {
        let (s, a) = ws.step(open(), e);
        assert_eq!(s, Session { link: Link::Connecting, reconnects: 0 });
        assert_eq!(a, Action::Connect);
    }
}

#[test]
fn dropped_connection_gets_the_full_retry_budget() {
    let ws = Ws::new("ws://x", "t");
    let (mut s, _) = ws.step(open(), Event::StreamEnded);
    let mut retries = 0;
    loop {
        let (s2, a) = ws.step(s, Event::ConnectFailed);
        s = s2;
        if a == Action::GiveUp {
            break;
        }
        retries += 1;
    }
    assert_eq!(retries, 5);
}

#[test]
fn queued_messages_are_transmitted() {
    let ws = Ws::new("ws://x", "t");
    let (s, a) = ws.step(open(), Event::Queued);
    assert_eq!(s, open());
    assert_eq!(a, Action::Transmit);
    let (s, a) = ws.step(open(), Event::Sent);
    assert_eq!(s, open());
    assert_eq!(a, Action::Wait);
}
