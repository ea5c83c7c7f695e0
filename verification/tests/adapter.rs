use socks5_listener::ConnTable;
use socks5_listener::ConnectionError;
use socks5_listener::Connection;
use socks5_listener::Protocol;
use socks5_listener::Socks5TunnelListener;

fn accepted(host: &str, port: u16) -> Option<Result<(Connection, (String, u16)), ConnectionError>> {
    Some(Ok((Connection::establish(Protocol::Socks5), (host.to_string(), port))))
}

#[test]
fn one_item_per_outcome_in_order() {
    let mut adapter = Socks5TunnelListener::new();
    let outcomes = vec![
        accepted("a.example", 1),
        Some(Err(ConnectionError::Malformed)),
        accepted("b.example", 2),
        Some(Err(ConnectionError::Timeout)),
        Some(Err(ConnectionError::AuthFailed)),
        accepted("c.example", 3),
    ];

    let mut seen: Vec<String> = Vec::new();
    for outcome in outcomes {
        match adapter.adapt(outcome) {
            Some(Ok((_conn, addr))) => seen.push(format!("ok:{}:{}", addr.host, addr.port)),
            Some(Err(e)) => seen.push(format!("err:{:?}", e)),
            None => panic!("sequence ended early"),
        }
    }
    assert_eq!(
        seen,
        vec![
            "ok:a.example:1".to_string(),
            "err:Malformed".to_string(),
            "ok:b.example:2".to_string(),
            "err:Timeout".to_string(),
            "err:AuthFailed".to_string(),
            "ok:c.example:3".to_string(),
        ]
    );
    assert!(!adapter.has_ended());
}

#[test]
fn remote_addr_is_exactly_what_the_handshake_discovered() {
    let mut adapter = Socks5TunnelListener::new();
    let item = adapter.adapt(accepted("example.com", 80));
    match item {
        Some(Ok((_conn, addr))) => {
            assert_eq!(addr.protocol, Protocol::Socks5);
            assert_eq!(addr.host, "example.com");
            assert_eq!(addr.port, 80);
        }
        other => panic!("expected a success item, got {:?}", other.is_some()),
    }
}

#[test]
fn error_passes_through_and_sequence_continues() {
    let mut adapter = Socks5TunnelListener::new();

    let first = adapter.adapt::<Connection>(Some(Err(ConnectionError::AuthRequired)));
    match first {
        Some(Err(e)) => assert_eq!(e, ConnectionError::AuthRequired),
        _ => panic!("expected the error passed through"),
    }
    assert!(!adapter.has_ended());

    let second = adapter.adapt(accepted("after.example", 443));
    match second {
        Some(Ok((_conn, addr))) => {
            assert_eq!(addr.host, "after.example");
            assert_eq!(addr.port, 443);
        }
        _ => panic!("expected the next connection adapted normally"),
    }
}

#[test]
fn end_of_sequence_is_final_and_inert() {
    let mut adapter = Socks5TunnelListener::new();
    assert!(adapter.adapt(accepted("x.example", 9)).is_some());

    let end = adapter.adapt::<Connection>(None);
    assert!(end.is_none());
    assert!(adapter.has_ended());

    // Further pulls never resurrect items, whatever the source would offer.
    assert!(adapter.adapt(accepted("ghost.example", 1)).is_none());
    assert!(adapter.adapt::<Connection>(Some(Err(ConnectionError::Malformed))).is_none());
    assert!(adapter.adapt::<Connection>(None).is_none());
    assert!(adapter.has_ended());
}

#[test]
fn connections_outlive_the_listener() {
    let mut adapter = Socks5TunnelListener::new();
    let mut table = ConnTable::new();

    let (conn, addr) = match adapter.adapt(accepted("peer.example", 7000)) {
        Some(Ok(pair)) => pair,
        _ => panic!("expected a success item"),
    };
    assert_eq!(addr.host, "peer.example");
    let (r, w) = table.split(conn);

    // The listening socket closes; the already-adapted connection's halves
    // stay independently usable.
    assert!(adapter.adapt::<Connection>(None).is_none());
    table.write(&w, &vec![42, 43]);
    table.loopback(&r);
    assert_eq!(table.read(&r, 2), vec![42, 43]);
}
