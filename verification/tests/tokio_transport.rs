use socks5_listener::ConnectionError;
use socks5_listener::NegotiatedTcp;
use socks5_listener::Socks5TunnelListener;

#[test]
fn adapt_split_passes_errors_through() {
    let mut adapter = Socks5TunnelListener::new();
    let outcome: Option<Result<(NegotiatedTcp, (String, u16)), ConnectionError>> =
        Some(Err(ConnectionError::Malformed));
    match adapter.adapt_split(outcome) {
        Some(Err(e)) => assert_eq!(e, ConnectionError::Malformed),
        _ => panic!("expected the error passed through unchanged"),
    }
    assert!(!adapter.has_ended());
}

#[test]
fn adapt_split_ends_with_the_underlying_sequence() {
    let mut adapter = Socks5TunnelListener::new();
    assert!(adapter.adapt_split(None).is_none());
    assert!(adapter.has_ended());
    let late: Option<Result<(NegotiatedTcp, (String, u16)), ConnectionError>> =
        Some(Err(ConnectionError::Timeout));
    assert!(adapter.adapt_split(late).is_none());
}
