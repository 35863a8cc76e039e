//! Violations of the invariants that persisted metadata must meet.
use vstd::prelude::*;

use crate::numeric::Numeric;

verus! {

/// Persisted data breaks an invariant that the storage layer cannot express.
/// Each variant carries the values needed to diagnose it without a new query.
#[derive(Debug, PartialEq, Eq)]
pub enum ConstraintViolation {
    /// Exactly one of a block pointer's hash and number is present.
    BlockPointerMismatch {
        id: String,
        name: String,
        hash: Option<Vec<u8>>,
        number: Option<Numeric>,
    },
    /// A block number is below zero or above `u64::MAX`.
    BlockNumberOutOfRange { id: String, name: String, number: Numeric },
    /// No site maps the deployment to a network and shard.
    MissingSite { deployment: String },
    /// An entity count is below zero or above `u64::MAX`.
    EntityCountOutOfRange { deployment: String, count: Numeric },
    /// An error record names a deployment with an invalid identifier.
    InvalidSubgraphId { id: String },
    /// A graft base is not a valid deployment identifier.
    InvalidGraftBase { base: String },
}

} // verus!
