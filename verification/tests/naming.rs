use turs_ws::addr::PeerAddr;
use turs_ws::naming::{peer_id, push_decimal};
use turs_ws::server::Peer;

#[test]
fn peer_is_named_after_its_port() {
    let p = Peer::new(PeerAddr::v4(0x7f00_0001, 8080));
    assert_eq!(p.id, "peer__8080");
    assert_eq!(p.addr, PeerAddr::v4(0x7f00_0001, 8080));
}

#[test]
fn peer_id_edge_ports() {
    assert_eq!(peer_id(0), "peer__0");
    assert_eq!(peer_id(9), "peer__9");
    assert_eq!(peer_id(10), "peer__10");
    assert_eq!(peer_id(100), "peer__100");
    assert_eq!(peer_id(65535), "peer__65535");
}

#[test]
fn push_decimal_appends() {
    let mut s = String::from("port=");
    push_decimal(&mut s, 5000);
    assert_eq!(s, "port=5000");
}

#[test]
fn addresses_compare_like_socket_addresses() {
    let a = PeerAddr::v4(0x7f00_0001, 5000);
    assert!(a.same(&PeerAddr::v4(0x7f00_0001, 5000)));
    assert!(!a.same(&PeerAddr::v4(0x7f00_0001, 5001)));
    assert!(!a.same(&PeerAddr::v6(0x7f00_0001, 5000, 0, 0)));
    assert_eq!(a.port(), 5000);
    let b = PeerAddr::v6(1, 80, 7, 2);
    assert!(b.is_v6);
    assert_eq!((b.ip, b.port, b.flowinfo, b.scope_id), (1, 80, 7, 2));
    assert!(!b.same(&PeerAddr::v6(1, 80, 7, 3)));
}
