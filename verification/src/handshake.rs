//! The per-connection handshake outcome rules the listener enforces.
//!
//! The accept loop itself — sockets, method negotiation bytes, timers — is
//! the protocol engine's. What is decided here is the outcome of one
//! client's handshake attempt given the listener's configuration: when
//! credentials are absent only the no-authentication method is accepted;
//! when present, a matching username/password pair is required; a handshake
//! that ran past the configured timeout, failed on the transport, or sent
//! malformed bytes fails with the corresponding per-connection error. Every
//! failure concerns that one client only.

use vstd::prelude::*;
use crate::errors::ConnectionError;

verus! {

/// What one listener was started with: an optional handshake timeout (in
/// abstract time units) and an optional username/password pair. Absent
/// credentials mean the no-authentication method alone is acceptable.
pub struct HandshakeConfig {
    pub timeout: Option<u64>,
    pub credentials: Option<(String, String)>,
}

/// The authentication method one client ended up using.
pub enum ClientAuth {
    /// The client completed the no-authentication method.
    NoAuth,
    /// The client supplied this username/password pair.
    UserPass { user: String, pass: String },
    /// The client offered no method the listener supports.
    NoAcceptableMethod,
}

/// One client's handshake attempt, as the protocol engine saw it: how many
/// time units it took, whether the transport failed under it, whether its
/// bytes parsed, which method it used, and the destination it requested.
pub struct ClientHandshake {
    pub elapsed: u64,
    pub io_failed: bool,
    pub well_formed: bool,
    pub auth: ClientAuth,
    pub host: String,
    pub port: u16,
}

/// Whether the attempt ran past the configured timeout: with a timeout of
/// `t` units, an attempt still incomplete after `t` units has expired; with
/// no timeout configured nothing expires.
pub open spec fn timed_out(cfg: HandshakeConfig, c: ClientHandshake) -> bool {
    match cfg.timeout {
        Some(t) => c.elapsed >= t,
        None => false,
    }
}

/// The outcome of one handshake attempt, in order of precedence: an
/// expired timeout, then a transport failure, then malformed bytes, then
/// authentication; only a fully acceptable attempt yields the destination,
/// and it yields it exactly as requested.
pub open spec fn handshake_outcome(cfg: HandshakeConfig, c: ClientHandshake) -> Result<
    (Seq<char>, u16),
    ConnectionError,
> {
    if timed_out(cfg, c) {
        Err(ConnectionError::Timeout)
    } else if c.io_failed {
        Err(ConnectionError::NegotiationIo)
    } else if !c.well_formed {
        Err(ConnectionError::Malformed)
    } else {
        match (cfg.credentials, c.auth) {
            (Option::None, ClientAuth::NoAuth) => Ok((c.host@, c.port)),
            (Option::None, _) => Err(ConnectionError::UnsupportedMethod),
            (Option::Some(cred), ClientAuth::UserPass { user, pass }) => {
                if user@ == cred.0@ && pass@ == cred.1@ {
                    Ok((c.host@, c.port))
                } else {
                    Err(ConnectionError::AuthFailed)
                }
            },
            (Option::Some(_), ClientAuth::NoAuth) => Err(ConnectionError::AuthRequired),
            (Option::Some(_), ClientAuth::NoAcceptableMethod) => Err(
                ConnectionError::UnsupportedMethod,
            ),
        }
    }
}

/// The abstract content of an evaluated outcome.
pub open spec fn outcome_view(r: Result<(String, u16), ConnectionError>) -> Result<
    (Seq<char>, u16),
    ConnectionError,
> {
    match r {
        Ok(hp) => Ok((hp.0@, hp.1)),
        Err(e) => Err(e),
    }
}

/// Decides one client's handshake attempt: returns exactly what
/// `handshake_outcome` prescribes — the requested destination on success,
/// the one per-connection error otherwise.
pub fn evaluate(cfg: &HandshakeConfig, c: &ClientHandshake) -> (r: Result<
    (String, u16),
    ConnectionError,
>)
    ensures
        outcome_view(r) == handshake_outcome(*cfg, *c),
{
    let expired: bool = match &cfg.timeout {
        Option::Some(t) => c.elapsed >= *t,
        Option::None => false,
    };
    if expired {
        Err(ConnectionError::Timeout)
    } else if c.io_failed {
        Err(ConnectionError::NegotiationIo)
    } else if !c.well_formed {
        Err(ConnectionError::Malformed)
    } else {
        match (&cfg.credentials, &c.auth) {
            (Option::None, ClientAuth::NoAuth) => Ok((c.host.clone(), c.port)),
            (Option::None, _) => Err(ConnectionError::UnsupportedMethod),
            (Option::Some(cred), ClientAuth::UserPass { user, pass }) => {
                if *user == cred.0 && *pass == cred.1 {
                    Ok((c.host.clone(), c.port))
                } else {
                    Err(ConnectionError::AuthFailed)
                }
            },
            (Option::Some(_), ClientAuth::NoAuth) => Err(ConnectionError::AuthRequired),
            (Option::Some(_), ClientAuth::NoAcceptableMethod) => Err(
                ConnectionError::UnsupportedMethod,
            ),
        }
    }
}

} // verus!
