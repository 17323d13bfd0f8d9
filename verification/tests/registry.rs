use turs_ws::addr::PeerAddr;
use turs_ws::registry::PeerTable;
use turs_ws::server::Peer;

fn addr(port: u16) -> PeerAddr {
    PeerAddr::v4(0x7f00_0001, port)
}

#[test]
fn insert_then_get() {
    let mut t: PeerTable<&str> = PeerTable::new();
    assert_eq!(t.len(), 0);
    assert_eq!(t.insert(addr(1), "a"), None);
    assert_eq!(t.insert(addr(2), "b"), None);
    assert_eq!(t.get(&addr(1)), Some(&"a"));
    assert_eq!(t.get(&addr(2)), Some(&"b"));
    assert_eq!(t.get(&addr(3)), None);
    assert!(t.contains(&addr(2)));
    assert!(!t.contains(&addr(3)));
    assert_eq!(t.len(), 2);
}

#[test]
fn insert_replaces_and_returns_the_old_peer() {
    let mut t: PeerTable<&str> = PeerTable::new();
    t.insert(addr(1), "a");
    t.insert(addr(2), "b");
    assert_eq!(t.insert(addr(1), "c"), Some("a"));
    assert_eq!(t.len(), 2);
    assert_eq!(t.get(&addr(1)), Some(&"c"));
    // the replaced peer keeps its place
    let everyone: Vec<&&str> = t.recipients(&addr(9));
    assert_eq!(everyone, vec![&"c", &"b"]);
}

#[test]
fn remove_takes_the_peer_out() {
    let mut t: PeerTable<&str> = PeerTable::new();
    t.insert(addr(1), "a");
    t.insert(addr(2), "b");
    t.insert(addr(3), "c");
    assert_eq!(t.remove(&addr(2)), Some("b"));
    assert_eq!(t.remove(&addr(2)), None);
    assert_eq!(t.len(), 2);
    assert!(!t.contains(&addr(2)));
    assert_eq!(t.recipients(&addr(9)), vec![&"a", &"c"]);
}

#[test]
fn connect_then_disconnect_leaves_table_as_before() {
    let mut t: PeerTable<&str> = PeerTable::new();
    t.insert(addr(1), "a");
    t.insert(addr(7), "x");
    t.remove(&addr(7));
    assert_eq!(t.len(), 1);
    assert_eq!(t.recipients(&addr(9)), vec![&"a"]);
}

#[test]
fn clear_empties_the_table() {
    let mut t: PeerTable<&str> = PeerTable::new();
    t.insert(addr(1), "a");
    t.insert(addr(2), "b");
    t.clear();
    assert_eq!(t.len(), 0);
    assert!(!t.contains(&addr(1)));
}

#[test]
fn broadcast_skips_the_sender_only() {
    let mut t: PeerTable<&str> = PeerTable::new();
    t.insert(addr(1), "a");
    t.insert(addr(2), "b");
    t.insert(addr(3), "c");
    assert_eq!(t.recipients(&addr(2)), vec![&"a", &"c"]);
    assert_eq!(t.recipients(&addr(4)), vec![&"a", &"b", &"c"]);
    let sender = Peer::new(addr(1));
    assert_eq!(sender.broadcast_targets(&t), vec![&"b", &"c"]);
}

#[test]
fn broadcast_from_lone_peer_reaches_nobody() {
    let mut t: PeerTable<u32> = PeerTable::new();
    t.insert(addr(5), 5);
    let sender = Peer::new(addr(5));
    assert!(sender.broadcast_targets(&t).is_empty());
}
