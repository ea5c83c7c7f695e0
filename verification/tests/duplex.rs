use socks5_listener::ConnTable;
use socks5_listener::Connection;
use socks5_listener::Protocol;

#[test]
fn round_trip_through_split_halves() {
    let mut table = ConnTable::new();
    let conn = Connection::establish(Protocol::Socks5);
    let (r, w) = table.split(conn);

    let payload: Vec<u8> = vec![0x05, 0x01, 0x00, 0xde, 0xad, 0xbe, 0xef];
    table.write(&w, &payload);
    table.loopback(&r);
    let echoed = table.read(&r, payload.len());
    assert_eq!(echoed, payload);
}

#[test]
fn writes_reach_peer_in_order() {
    let mut table = ConnTable::new();
    let conn = Connection::establish(Protocol::Socks5);
    let (r, w) = table.split(conn);

    table.write(&w, &vec![1, 2, 3]);
    table.write(&w, &vec![4, 5]);
    table.loopback(&r);
    let all = table.read(&r, 5);
    assert_eq!(all, vec![1, 2, 3, 4, 5]);
}

#[test]
fn halves_are_independent_under_interleaving() {
    let mut table = ConnTable::new();
    let mut conn = Connection::establish(Protocol::Socks5);
    conn.deliver(&vec![10, 20, 30]);
    let (r, w) = table.split(conn);

    // A write interleaved between two reads changes neither what is read
    // nor the order in which it is read.
    let first = table.read(&r, 1);
    table.write(&w, &vec![99]);
    let second = table.read(&r, 2);
    assert_eq!(first, vec![10]);
    assert_eq!(second, vec![20, 30]);
}

#[test]
fn unsplit_connection_behaves_like_the_halves() {
    let mut conn = Connection::establish(Protocol::Socks5);
    conn.deliver(&vec![10, 20, 30]);
    conn.write(&vec![1, 2]);
    let observed = conn.read(3);
    assert_eq!(observed, vec![10, 20, 30]);
    let on_wire = conn.peer_take(2);
    assert_eq!(on_wire, vec![1, 2]);
}

#[test]
fn closing_one_half_leaves_the_other_usable() {
    let mut table = ConnTable::new();
    let mut conn = Connection::establish(Protocol::Socks5);
    conn.deliver(&vec![7, 8]);
    let (r, w) = table.split(conn);
    let id = r.slot();

    table.close_write(w);
    assert!(!table.slot_torn_down(id));
    let still_readable = table.read(&r, 2);
    assert_eq!(still_readable, vec![7, 8]);
}

#[test]
fn torn_down_only_when_both_halves_released() {
    let mut table = ConnTable::new();
    let conn = Connection::establish(Protocol::Socks5);
    let (r, w) = table.split(conn);
    let id = w.slot();

    assert!(!table.slot_torn_down(id));
    table.close_read(r);
    assert!(!table.slot_torn_down(id));
    table.close_write(w);
    assert!(table.slot_torn_down(id));
}

#[test]
fn each_split_gets_its_own_slot() {
    let mut table = ConnTable::new();
    let (r1, w1) = table.split(Connection::establish(Protocol::Socks5));
    let (r2, w2) = table.split(Connection::establish(Protocol::Socks5));
    assert_ne!(r1.slot(), r2.slot());
    assert_eq!(r1.slot(), w1.slot());
    assert_eq!(r2.slot(), w2.slot());

    // Traffic on one connection leaves the other untouched.
    table.write(&w1, &vec![1]);
    table.loopback(&r1);
    table.loopback(&r2);
    assert_eq!(table.read(&r1, 1), vec![1]);
    assert_eq!(table.read(&r2, 1), Vec::<u8>::new());
}
