//! A replicated course registry: content-addressed course records, a typed
//! directed link index, a well-known anchor for global enumeration, and the
//! per-record validation rules that every peer re-runs independently before
//! accepting an operation.
//!
//! The host platform (replication transport, content hashing, durable storage,
//! the cross-module membership registry) is an external collaborator; this
//! crate holds the logic that every peer must agree on: which operations are
//! admissible, and how the record store and link graph change under each
//! service operation.

pub mod anchor;
pub mod course;
pub mod errors;
pub mod laws;
pub mod links;
pub mod service;
pub mod store;
pub mod validation;

use vstd::prelude::*;

verus! {

/// A content address. Identities, course records, the anchor and link records
/// are all addressed values; an identity is simply the address of a signer.
pub type Address = u64;

} // verus!
