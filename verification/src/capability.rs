//! The capability interface between the adapter and a negotiated
//! connection.
//!
//! The adapter never depends on a concrete handshake variant: any connection
//! type that can report which protocol family negotiated it can be adapted.
//! Further variants are added by implementing this trait, not by touching
//! the adapter.

use vstd::prelude::*;
use crate::remote_addr::Protocol;

verus! {

/// A connection whose handshake has completed and which knows which
/// protocol family produced it.
pub trait Negotiated {
    /// The protocol tag, at the specification level.
    spec fn tag_spec(&self) -> Protocol;

    /// Reports the protocol family whose handshake produced this
    /// connection.
    fn protocol_tag(&self) -> (p: Protocol)
        ensures
            p == self.tag_spec(),
    ;
}

} // verus!
