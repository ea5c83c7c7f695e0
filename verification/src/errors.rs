//! The error taxonomy of the listener adapter.
//!
//! A `StartupError` is fatal to one adapter's construction and is surfaced
//! once, annotated with the bind address. A `ConnectionError` concerns a
//! single client's handshake and is reported as one item of the output
//! sequence; the sequence continues past it.

use vstd::prelude::*;

verus! {

/// Why one client's handshake failed. Non-fatal: the listener keeps
/// accepting, and the failure occupies exactly one slot of the output
/// sequence.
#[derive(Clone, Copy, Debug, PartialEq, Eq, Structural)]
pub enum ConnectionError {
    /// The client sent bytes that do not parse as a handshake.
    Malformed,
    /// Credentials are configured, but the client attempted the
    /// no-authentication method.
    AuthRequired,
    /// The client supplied a username/password pair that does not match the
    /// configured credentials.
    AuthFailed,
    /// The client offered no authentication method the listener supports.
    UnsupportedMethod,
    /// The handshake did not complete within the configured timeout.
    Timeout,
    /// The transport failed while the handshake was being negotiated.
    NegotiationIo,
}

/// Why binding the listening socket failed. Fatal to the adapter being
/// constructed, and to it alone.
#[derive(Clone, Copy, Debug, PartialEq, Eq, Structural)]
pub enum StartupError {
    AddressInUse,
    PermissionDenied,
    InvalidAddress,
}

/// A `StartupError` annotated with the address the adapter tried to bind,
/// for diagnostics; this is how construction re-raises the failure.
#[derive(Debug)]
pub struct StartupFailure {
    pub bind_host: String,
    pub bind_port: u16,
    pub error: StartupError,
}

impl StartupFailure {
    /// Attaches the bind address to a startup error, changing neither.
    pub fn annotate(bind_host: String, bind_port: u16, error: StartupError) -> (r: StartupFailure)
        ensures
            r.bind_host@ == bind_host@,
            r.bind_port == bind_port,
            r.error == error,
    {
        StartupFailure { bind_host, bind_port, error }
    }
}

} // verus!
