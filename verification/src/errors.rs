//! The error taxonomy: validation verdicts, bridge failures, and store
//! failures are kept apart and surfaced verbatim to the caller.

use vstd::prelude::*;

verus! {

/// Why a peer rejects a create, modify or delete operation.
#[derive(Clone, Copy, Debug, PartialEq, Eq, Structural)]
pub enum ValidationError {
    /// The signer set does not contain the identity the rule demands.
    UnauthorizedSigner,
    /// A revision tried to change the owning teacher of a course.
    OwnerChanged,
    /// The course title exceeds the allowed length.
    TitleTooLong,
    /// The membership registry did not confirm the teacher's identity
    /// (including every bridge failure: validation fails closed).
    UnverifiedMember,
}

/// A failure of the synchronous call into the membership registry.
#[derive(Clone, Copy, Debug, PartialEq, Eq, Structural)]
pub enum BridgeError {
    /// The registry module could not be invoked.
    Unreachable,
    /// The registry answered, but not with a decodable boolean.
    Malformed,
}

/// A failure of the content-addressed record store.
#[derive(Clone, Copy, Debug, PartialEq, Eq, Structural)]
pub enum StoreError {
    /// No live record or link was found at the given address.
    NotFound,
    /// The store cannot hand out a fresh address for a new record.
    AddressCollision,
}

/// What a service operation can surface: a validation verdict, verbatim, or
/// a store failure, propagated unchanged.
#[derive(Clone, Copy, Debug, PartialEq, Eq, Structural)]
pub enum ServiceError {
    Validation(ValidationError),
    Store(StoreError),
}

} // verus!
