//! The anchor: a singleton, well-known record whose address every peer can
//! compute without coordination. Global enumeration of courses works by
//! following the typed edges that fan out from this one address.

use vstd::prelude::*;

use crate::Address;

verus! {

/// The reserved address of the course anchor. Deterministic and identical on
/// every peer; the record store hands out fresh addresses strictly above it.
pub const ANCHOR_ADDRESS: Address = 1;

/// The deterministic rendez-vous address for the course anchor.
pub fn anchor_address() -> (r: Address)
    ensures
        r == ANCHOR_ADDRESS,
{
    ANCHOR_ADDRESS
}

} // verus!
