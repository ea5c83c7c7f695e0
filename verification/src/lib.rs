//! A listener adapter for SOCKS5-negotiated inbound connections.
//!
//! The adapter turns a protocol-specific accept/handshake source into a
//! uniform sequence of duplex-transport events: each accepted connection is
//! split into independently owned read and write halves and paired with the
//! destination address discovered during the handshake; each per-connection
//! failure is passed through as one error item without disturbing the items
//! that follow it.

use vstd::prelude::*;

mod adapter;
mod capability;
mod duplex;
mod errors;
mod handshake;
mod remote_addr;
mod transport;

pub use adapter::adapt_event;
pub use adapter::event_of;
pub use adapter::lemma_end_is_final;
pub use adapter::lemma_error_isolation;
pub use adapter::lemma_one_item_per_outcome;
pub use adapter::run_steps;
pub use adapter::step_item;
pub use adapter::step_state;
pub use adapter::AcceptEvent;
pub use adapter::AdapterModel;
pub use adapter::EmittedItem;
pub use adapter::Socks5TunnelListener;
pub use capability::Negotiated;
pub use duplex::apply_ops;
pub use duplex::lemma_concurrent_halves;
pub use duplex::lemma_half_ops_commute;
pub use duplex::lemma_split_round_trip;
pub use duplex::lemma_writes_preserve_order;
pub use duplex::loopback_step;
pub use duplex::observed;
pub use duplex::read_step;
pub use duplex::reads_of;
pub use duplex::taken;
pub use duplex::write_step;
pub use duplex::writes_concat;
pub use duplex::ConnState;
pub use duplex::ConnTable;
pub use duplex::Connection;
pub use duplex::HalfOp;
pub use duplex::ReadEnd;
pub use duplex::WriteEnd;
pub use errors::ConnectionError;
pub use errors::StartupError;
pub use errors::StartupFailure;
pub use handshake::evaluate;
pub use handshake::handshake_outcome;
pub use handshake::outcome_view;
pub use handshake::timed_out;
pub use handshake::ClientAuth;
pub use handshake::ClientHandshake;
pub use handshake::HandshakeConfig;
pub use remote_addr::AddrState;
pub use remote_addr::Protocol;
pub use remote_addr::RemoteAddr;
pub use transport::NegotiatedTcp;

verus! {

} // verus!
