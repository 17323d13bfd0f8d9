use turs_ws::addr::PeerAddr;
use turs_ws::frame::{CloseInfo, Frame};
use turs_ws::server::{
    Accepting, Forwarding, Incoming, Msg, Outgoing, Peer, Reaction, WsServer, PEER_QUEUE_CAPACITY,
};

fn peer() -> Peer {
    Peer::new(PeerAddr::v4(0x7f00_0001, 40000))
}

#[test]
fn server_keeps_its_url() {
    let s = WsServer::new("localhost:5000");
    assert_eq!(s.url, "localhost:5000");
    assert_eq!(PEER_QUEUE_CAPACITY, 100);
}

#[test]
fn accept_loop_serves_until_accept_fails() {
    let s = WsServer::new("localhost:5000");
    assert_eq!(s.accept_step(true), Accepting::Serve);
    assert_eq!(s.accept_step(false), Accepting::Shutdown);
}

#[test]
fn text_is_parsed_then_dispatched_or_reported() {
    let p = peer();
    let text = r#"{"ev":"sub","data":{"pair":"SOL-USDT"}}"#.to_string();
    assert_eq!(p.react(Incoming::Frame(Frame::Text(text.clone()))), Reaction::Parse(text));
    let data = serde_json::from_str::<serde_json::Value>(r#"{"pair":"SOL-USDT"}"#).unwrap();
    let m = Msg { ev: "sub".to_string(), data: data.clone() };
    assert_eq!(
        p.react(Incoming::Parsed(m)),
        Reaction::Dispatch(Msg { ev: "sub".to_string(), data })
    );
    assert_eq!(
        p.react(Incoming::Unparsed("hello".to_string())),
        Reaction::ReportInvalid("hello".to_string())
    );
}

#[test]
fn close_and_other_frames_are_reported() {
    let p = peer();
    let c = Some(CloseInfo { code: 1001, reason: "away".to_string() });
    assert_eq!(p.react(Incoming::Frame(Frame::Close(c.clone()))), Reaction::ReportClose(c));
    assert_eq!(
        p.react(Incoming::Frame(Frame::Binary(vec![9]))),
        Reaction::ReportOther(Frame::Binary(vec![9]))
    );
    assert_eq!(
        p.react(Incoming::Frame(Frame::Ping(vec![]))),
        Reaction::ReportOther(Frame::Ping(vec![]))
    );
}

#[test]
fn read_errors_are_ignored_and_end_disconnects() {
    let p = peer();
    assert_eq!(p.react(Incoming::ReadFailed), Reaction::Ignore);
    assert_eq!(p.react(Incoming::Ended), Reaction::Disconnect);
}

#[test]
fn forwarding_decisions() {
    let p = peer();
    assert_eq!(p.forward(Outgoing::Queued), Forwarding::Transmit);
    assert_eq!(p.forward(Outgoing::Sent), Forwarding::Continue);
    assert_eq!(p.forward(Outgoing::QueueClosed), Forwarding::Stop);
    assert_eq!(p.forward(Outgoing::SendFailed), Forwarding::Evict);
}
