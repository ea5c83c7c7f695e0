use socks5_listener::evaluate;
use socks5_listener::ClientAuth;
use socks5_listener::ClientHandshake;
use socks5_listener::ConnectionError;
use socks5_listener::Connection;
use socks5_listener::HandshakeConfig;
use socks5_listener::Protocol;
use socks5_listener::Socks5TunnelListener;

fn no_auth_client(host: &str, port: u16) -> ClientHandshake {
    ClientHandshake {
        elapsed: 0,
        io_failed: false,
        well_formed: true,
        auth: ClientAuth::NoAuth,
        host: host.to_string(),
        port,
    }
}

fn user_pass_client(user: &str, pass: &str, host: &str, port: u16) -> ClientHandshake {
    ClientHandshake {
        auth: ClientAuth::UserPass { user: user.to_string(), pass: pass.to_string() },
        ..no_auth_client(host, port)
    }
}

#[test]
fn scenario_no_credentials_no_auth_handshake() {
    // Bind 127.0.0.1:1080 with no credentials; a client completes a no-auth
    // handshake requesting example.com:80.
    let cfg = HandshakeConfig { timeout: None, credentials: None };
    let outcome = evaluate(&cfg, &no_auth_client("example.com", 80));
    assert_eq!(outcome, Ok(("example.com".to_string(), 80)));

    let mut adapter = Socks5TunnelListener::new();
    let conn = Connection::establish(Protocol::Socks5);
    let (host, port) = outcome.unwrap();
    match adapter.adapt(Some(Ok((conn, (host, port))))) {
        Some(Ok((_conn, addr))) => {
            assert_eq!(addr.protocol, Protocol::Socks5);
            assert_eq!(addr.host, "example.com");
            assert_eq!(addr.port, 80);
        }
        _ => panic!("expected Ok(((read, write), remote_addr))"),
    }
}

#[test]
fn scenario_credentials_required_then_supplied() {
    let cfg = HandshakeConfig {
        timeout: None,
        credentials: Some(("user".to_string(), "pass".to_string())),
    };
    let mut adapter = Socks5TunnelListener::new();

    // First client attempts no-auth: one Err(AuthRequired) item.
    let refused = evaluate(&cfg, &no_auth_client("example.com", 80));
    assert_eq!(refused, Err(ConnectionError::AuthRequired));
    match adapter.adapt::<Connection>(Some(Err(refused.unwrap_err()))) {
        Some(Err(e)) => assert_eq!(e, ConnectionError::AuthRequired),
        _ => panic!("expected the error as one sequence item"),
    }

    // A second client supplying the correct credentials succeeds as usual.
    let accepted = evaluate(&cfg, &user_pass_client("user", "pass", "example.com", 80));
    assert_eq!(accepted, Ok(("example.com".to_string(), 80)));
    let conn = Connection::establish(Protocol::Socks5);
    let (host, port) = accepted.unwrap();
    match adapter.adapt(Some(Ok((conn, (host, port))))) {
        Some(Ok((_conn, addr))) => {
            assert_eq!(addr.host, "example.com");
            assert_eq!(addr.port, 80);
        }
        _ => panic!("expected the second connection adapted"),
    }
    assert!(!adapter.has_ended());
}

#[test]
fn scenario_handshake_timeout_fails_one_connection_only() {
    // Timeout of 2 time-units; a client opens the connection but sends no
    // handshake bytes, so after 2 units the attempt has expired.
    let cfg = HandshakeConfig { timeout: Some(2), credentials: None };
    let mut silent = no_auth_client("", 0);
    silent.elapsed = 2;
    silent.well_formed = false;
    let outcome = evaluate(&cfg, &silent);
    assert_eq!(outcome, Err(ConnectionError::Timeout));

    let mut adapter = Socks5TunnelListener::new();
    match adapter.adapt::<Connection>(Some(Err(outcome.unwrap_err()))) {
        Some(Err(e)) => assert_eq!(e, ConnectionError::Timeout),
        _ => panic!("expected exactly one Err(Timeout) item"),
    }

    // The listener remains alive for later clients.
    assert!(!adapter.has_ended());
    let later = evaluate(&cfg, &no_auth_client("later.example", 22));
    assert_eq!(later, Ok(("later.example".to_string(), 22)));
}

#[test]
fn timeout_not_reached_does_not_expire() {
    let cfg = HandshakeConfig { timeout: Some(2), credentials: None };
    let mut quick = no_auth_client("example.com", 80);
    quick.elapsed = 1;
    assert_eq!(evaluate(&cfg, &quick), Ok(("example.com".to_string(), 80)));
}

#[test]
fn malformed_bytes_are_rejected() {
    let cfg = HandshakeConfig { timeout: None, credentials: None };
    let mut garbled = no_auth_client("example.com", 80);
    garbled.well_formed = false;
    assert_eq!(evaluate(&cfg, &garbled), Err(ConnectionError::Malformed));
}

#[test]
fn transport_failure_during_negotiation() {
    let cfg = HandshakeConfig { timeout: None, credentials: None };
    let mut dropped = no_auth_client("example.com", 80);
    dropped.io_failed = true;
    assert_eq!(evaluate(&cfg, &dropped), Err(ConnectionError::NegotiationIo));
}

#[test]
fn wrong_credentials_fail_authentication() {
    let cfg = HandshakeConfig {
        timeout: None,
        credentials: Some(("user".to_string(), "pass".to_string())),
    };
    let wrong = user_pass_client("user", "wrong", "example.com", 80);
    assert_eq!(evaluate(&cfg, &wrong), Err(ConnectionError::AuthFailed));
}

#[test]
fn unsupported_method_is_rejected() {
    let open_cfg = HandshakeConfig { timeout: None, credentials: None };
    let mut odd = no_auth_client("example.com", 80);
    odd.auth = ClientAuth::NoAcceptableMethod;
    assert_eq!(evaluate(&open_cfg, &odd), Err(ConnectionError::UnsupportedMethod));

    // With no credentials configured, only the no-authentication method is
    // acceptable.
    let with_pass = user_pass_client("user", "pass", "example.com", 80);
    assert_eq!(evaluate(&open_cfg, &with_pass), Err(ConnectionError::UnsupportedMethod));
}
