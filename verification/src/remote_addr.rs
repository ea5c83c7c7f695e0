//! The destination record attached to every successfully adapted connection.

use vstd::prelude::*;

verus! {

/// The handshake protocol family that negotiated a connection.
///
/// The adapter reads this tag from each connection so that one output shape
/// can serve several handshake variants; only SOCKS5 is implemented today.
#[derive(Clone, Copy, Debug, PartialEq, Eq, Structural)]
pub enum Protocol {
    Socks5,
}

/// The abstract content of a `RemoteAddr`.
#[verifier::ext_equal]
pub struct AddrState {
    pub protocol: Protocol,
    pub host: Seq<char>,
    pub port: u16,
}

/// The destination a client requested during its handshake: an immutable
/// `{protocol, host, port}` record, produced exactly once per connection and
/// never altered afterwards.
#[derive(Debug)]
pub struct RemoteAddr {
    pub protocol: Protocol,
    pub host: String,
    pub port: u16,
}

impl View for RemoteAddr {
    type V = AddrState;

    open spec fn view(&self) -> AddrState {
        AddrState { protocol: self.protocol, host: self.host@, port: self.port }
    }
}

impl RemoteAddr {
    /// Packages the exact host and port the handshake discovered, with no
    /// transformation, truncation, or defaulting.
    pub fn from_handshake(protocol: Protocol, host: String, port: u16) -> (r: RemoteAddr)
        ensures
            r.protocol == protocol,
            r.host@ == host@,
            r.port == port,
    {
        RemoteAddr { protocol, host, port }
    }
}

} // verus!
