use socks5_listener::StartupError;
use socks5_listener::StartupFailure;

#[test]
fn startup_failure_carries_the_bind_address() {
    let failure = StartupFailure::annotate(
        "127.0.0.1".to_string(),
        1080,
        StartupError::AddressInUse,
    );
    assert_eq!(failure.bind_host, "127.0.0.1");
    assert_eq!(failure.bind_port, 1080);
    assert_eq!(failure.error, StartupError::AddressInUse);
}
