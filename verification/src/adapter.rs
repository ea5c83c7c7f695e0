//! The listener adapter: one uniform, pull-based sequence of adapted
//! connections over any negotiated-connection source.
//!
//! Each outcome pulled from the underlying listener becomes exactly one
//! output item, in the same order: a success is paired with the
//! `RemoteAddr` its handshake discovered, a per-connection failure passes
//! through unchanged, and end of the underlying sequence ends the output
//! sequence once and for all. The abstract behaviour is the step functions
//! below; the executable adapter is proved to follow them.

use vstd::prelude::*;
use crate::capability::Negotiated;
use crate::errors::ConnectionError;
use crate::remote_addr::AddrState;
use crate::remote_addr::Protocol;
use crate::remote_addr::RemoteAddr;
use crate::transport::NegotiatedTcp;

verus! {

/// The summary of one outcome of the underlying listener: a connection
/// whose handshake succeeded, with its protocol tag and the destination the
/// handshake discovered, or a per-connection failure.
pub enum AcceptEvent {
    Accepted { protocol: Protocol, host: Seq<char>, port: u16 },
    Refused(ConnectionError),
}

/// The summary of one item the adapter emits.
pub enum EmittedItem {
    Adapted(AddrState),
    PassedError(ConnectionError),
}

/// What the adapter emits for one outcome: the accepted connection becomes
/// an item carrying exactly the discovered destination; a failure passes
/// through unchanged.
pub open spec fn adapt_event(ev: AcceptEvent) -> EmittedItem {
    match ev {
        AcceptEvent::Accepted { protocol, host, port } => EmittedItem::Adapted(
            AddrState { protocol, host, port },
        ),
        AcceptEvent::Refused(e) => EmittedItem::PassedError(e),
    }
}

/// The abstract state of one adapter: whether its sequence has ended, and
/// every item it has emitted, in order.
#[verifier::ext_equal]
pub struct AdapterModel {
    pub ended: bool,
    pub emitted: Seq<EmittedItem>,
}

/// How one pull advances the adapter: inert once ended; an outcome appends
/// exactly one item; end of the underlying sequence ends the adapter and
/// appends nothing.
pub open spec fn step_state(m: AdapterModel, ev: Option<AcceptEvent>) -> AdapterModel {
    if m.ended {
        m
    } else {
        match ev {
            Some(e) => AdapterModel { ended: false, emitted: m.emitted.push(adapt_event(e)) },
            None => AdapterModel { ended: true, emitted: m.emitted },
        }
    }
}

/// What one pull hands to the consumer.
pub open spec fn step_item(m: AdapterModel, ev: Option<AcceptEvent>) -> Option<EmittedItem> {
    if m.ended {
        None
    } else {
        match ev {
            Some(e) => Some(adapt_event(e)),
            None => None,
        }
    }
}

/// The summary of one outcome value of the underlying listener.
pub open spec fn event_of<C: Negotiated>(
    outcome: Option<Result<(C, (String, u16)), ConnectionError>>,
) -> Option<AcceptEvent> {
    match outcome {
        Some(Ok((c, hp))) => Some(
            AcceptEvent::Accepted { protocol: c.tag_spec(), host: hp.0@, port: hp.1 },
        ),
        Some(Err(e)) => Some(AcceptEvent::Refused(e)),
        None => None,
    }
}

/// The adapter over a SOCKS5-family listener: wraps the underlying accept
/// sequence and presents the uniform, protocol-agnostic one.
pub struct Socks5TunnelListener {
    ended: bool,
    emitted: Ghost<Seq<EmittedItem>>,
}

impl Socks5TunnelListener {
    /// The abstract state this adapter is in.
    pub closed spec fn model(self) -> AdapterModel {
        AdapterModel { ended: self.ended, emitted: self.emitted@ }
    }

    /// A fresh adapter over a listener that has just started: nothing
    /// emitted, sequence open.
    pub fn new() -> (a: Socks5TunnelListener)
        ensures
            !a.model().ended,
            a.model().emitted == Seq::<EmittedItem>::empty(),
    {
        Socks5TunnelListener { ended: false, emitted: Ghost(Seq::empty()) }
    }

    /// Whether the output sequence has ended; once true it stays true and
    /// no further item is ever produced.
    pub fn has_ended(&self) -> (b: bool)
        ensures
            b == self.model().ended,
    {
        self.ended
    }

    /// Adapts one outcome pulled from the underlying listener.
    ///
    /// On a success, reads the connection's protocol tag and pairs the
    /// connection with a `RemoteAddr` holding exactly the host and port the
    /// handshake discovered. A failure passes through unchanged, and the
    /// sequence continues past it. `None` — the underlying socket closed —
    /// ends the sequence; after that every further pull is inert and
    /// produces nothing.
    pub fn adapt<C: Negotiated>(
        &mut self,
        outcome: Option<Result<(C, (String, u16)), ConnectionError>>,
    ) -> (r: Option<Result<(C, RemoteAddr), ConnectionError>>)
        ensures
            final(self).model() == step_state(old(self).model(), event_of(outcome)),
            old(self).model().ended ==> r is None && final(self).model() == old(self).model(),
            !old(self).model().ended ==> match outcome {
                Some(Ok((c, hp))) => r matches Some(Ok((c2, addr))) && c2 == c && addr@
                    == (AddrState { protocol: c.tag_spec(), host: hp.0@, port: hp.1 }),
                Some(Err(e)) => r == Some(Err::<(C, RemoteAddr), ConnectionError>(e)),
                None => r is None && final(self).model().ended,
            },
    {
        if self.ended {
            return None;
        }
        match outcome {
            Some(Ok((c, hp))) => {
                let (host, port) = hp;
                let protocol = c.protocol_tag();
                let addr = RemoteAddr::from_handshake(protocol, host, port);
                self.emitted = Ghost(self.emitted@.push(EmittedItem::Adapted(addr@)));
                Some(Ok((c, addr)))
            },
            Some(Err(e)) => {
                self.emitted = Ghost(self.emitted@.push(EmittedItem::PassedError(e)));
                Some(Err(e))
            },
            None => {
                self.ended = true;
                None
            },
        }
    }
}

impl Socks5TunnelListener {
    /// Adapts one outcome of a TCP-backed listener and splits the accepted
    /// connection into its two independently ownable halves, paired with a
    /// `RemoteAddr` holding exactly the destination the handshake
    /// discovered; failures pass through unchanged, and `None` ends the
    /// sequence for good.
    pub fn adapt_split(
        &mut self,
        outcome: Option<Result<(NegotiatedTcp, (String, u16)), ConnectionError>>,
    ) -> (r: Option<
        Result<
            (
                (
                    tokio::io::ReadHalf<tokio::net::TcpStream>,
                    tokio::io::WriteHalf<tokio::net::TcpStream>,
                ),
                RemoteAddr,
            ),
            ConnectionError,
        >,
    >)
        ensures
            final(self).model() == step_state(old(self).model(), event_of(outcome)),
            old(self).model().ended ==> r is None && final(self).model() == old(self).model(),
            !old(self).model().ended ==> match outcome {
                Some(Ok((c, hp))) => r matches Some(Ok((halves, addr))) && addr@ == (AddrState {
                    protocol: c.tag_spec(),
                    host: hp.0@,
                    port: hp.1,
                }),
                Some(Err(e)) => r matches Some(Err(e2)) && e2 == e,
                None => r is None && final(self).model().ended,
            },
    {
        match self.adapt(outcome) {
            Some(Ok((c, addr))) => Some(Ok((c.split(), addr))),
            Some(Err(e)) => Some(Err(e)),
            None => None,
        }
    }
}

/// The adapter driven over a whole sequence of outcomes, at the abstract
/// level.
pub open spec fn run_steps(m: AdapterModel, evs: Seq<AcceptEvent>) -> AdapterModel
    decreases evs.len(),
{
    if evs.len() == 0 {
        m
    } else {
        run_steps(step_state(m, Some(evs[0])), evs.drop_first())
    }
}

/// Law: for any interleaving of successful and failed outcomes, the
/// adapter emits exactly one item per outcome, in the order the underlying
/// listener produced them — and no interleaving of failures ends the
/// sequence.
pub proof fn lemma_one_item_per_outcome(m: AdapterModel, evs: Seq<AcceptEvent>)
    requires
        !m.ended,
    ensures
        !run_steps(m, evs).ended,
        run_steps(m, evs).emitted == m.emitted + evs.map_values(|ev: AcceptEvent| adapt_event(ev)),
    decreases evs.len(),
{
    let f = |ev: AcceptEvent| adapt_event(ev);
    if evs.len() == 0 {
        assert(run_steps(m, evs).emitted =~= m.emitted + evs.map_values(f));
    } else {
        let m1 = step_state(m, Some(evs[0]));
        lemma_one_item_per_outcome(m1, evs.drop_first());
        assert(run_steps(m, evs).emitted =~= m.emitted + evs.map_values(f));
    }
}

/// Law (error isolation): a handshake failure yields exactly one error
/// item, the sequence does not end, and the next well-formed connection is
/// adapted exactly as it would have been with no failure before it.
pub proof fn lemma_error_isolation(m: AdapterModel, e: ConnectionError, after: AcceptEvent)
    requires
        !m.ended,
    ensures
        step_item(m, Some(AcceptEvent::Refused(e))) == Some(EmittedItem::PassedError(e)),
        !step_state(m, Some(AcceptEvent::Refused(e))).ended,
        step_state(m, Some(AcceptEvent::Refused(e))).emitted == m.emitted.push(
            EmittedItem::PassedError(e),
        ),
        step_item(step_state(m, Some(AcceptEvent::Refused(e))), Some(after)) == Some(
            adapt_event(after),
        ),
{
}

/// Law (clean termination): the end of the underlying sequence ends the
/// adapter's sequence with no further item, and an ended adapter is inert:
/// nothing it already emitted changes and nothing new is ever produced.
pub proof fn lemma_end_is_final(m: AdapterModel, ev: Option<AcceptEvent>)
    ensures
        step_state(m, None).ended,
        step_state(m, None).emitted == m.emitted,
        step_item(m, None) is None,
        m.ended ==> step_state(m, ev) == m && step_item(m, ev) is None,
{
}

} // verus!

