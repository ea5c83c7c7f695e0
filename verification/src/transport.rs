//! The tokio-backed transport behind the real adapter output.
//!
//! A connection the protocol engine hands over after a completed handshake
//! is a TCP socket plus the protocol tag that negotiated it. Splitting it
//! delegates to `tokio::io::split`, which hands out the two independently
//! ownable halves the tunnel framework consumes; the socket itself is
//! opaque here, and the split call is the one operation taken on trust.

use vstd::prelude::*;
use crate::capability::Negotiated;
use crate::remote_addr::Protocol;

verus! {

#[verifier::external_type_specification]
#[verifier::external_body]
pub struct ExTcpStream(tokio::net::TcpStream);

#[verifier::external_type_specification]
#[verifier::external_body]
#[verifier::reject_recursive_types(T)]
pub struct ExReadHalf<T>(tokio::io::ReadHalf<T>);

#[verifier::external_type_specification]
#[verifier::external_body]
#[verifier::reject_recursive_types(T)]
pub struct ExWriteHalf<T>(tokio::io::WriteHalf<T>);

/// Relies on tokio::io::split: partitions one stream into a read half and
/// a write half, each independently ownable; the stream's resource is
/// shared by the two and released when both are dropped.
#[verifier::external_body]
fn split_stream(io: tokio::net::TcpStream) -> (tokio::io::ReadHalf<tokio::net::TcpStream>, tokio::io::WriteHalf<tokio::net::TcpStream>) {
    tokio::io::split(io)
}

/// A negotiated connection as the protocol engine delivers it: the TCP
/// socket the handshake completed on, tagged with the protocol family that
/// negotiated it.
pub struct NegotiatedTcp {
    pub io: tokio::net::TcpStream,
    pub protocol: Protocol,
}

impl Negotiated for NegotiatedTcp {
    open spec fn tag_spec(&self) -> Protocol {
        self.protocol
    }

    fn protocol_tag(&self) -> (p: Protocol) {
        self.protocol
    }
}

impl NegotiatedTcp {
    /// Splits this connection into its two halves. Consuming `self` makes
    /// the split happen exactly once per connection.
    pub fn split(self) -> (tokio::io::ReadHalf<tokio::net::TcpStream>, tokio::io::WriteHalf<
        tokio::net::TcpStream,
    >) {
        let NegotiatedTcp { io, protocol: _ } = self;
        split_stream(io)
    }
}

} // verus!
