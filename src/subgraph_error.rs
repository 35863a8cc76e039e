//! Conversion of stored error records into subgraph errors.
use vstd::prelude::*;

use crate::block::{BlockPtr, HASH_LEN};
use crate::deployment_hash::{is_valid_deployment_hash, DeploymentHash};
use crate::error::ConstraintViolation;

verus! {

/// One end of a stored version range.
#[derive(Clone, Copy, Debug, PartialEq, Eq)]
pub enum RangeBound {
    Included(i32),
    Excluded(i32),
    Unbounded,
}

/// The first block of a range whose lower end is `lower`; none where the
/// range is unbounded below.
pub open spec fn first_block_spec(lower: RangeBound) -> Option<int> {
    match lower {
        RangeBound::Included(n) => Some(n as int),
        RangeBound::Excluded(n) => Some(n + 1),
        RangeBound::Unbounded => None,
    }
}

/// The first block in `range`, from its lower end.
pub fn first_block_in_range(range: &(RangeBound, RangeBound)) -> (r: Option<i64>)
    ensures
        r matches Some(n) ==> first_block_spec(range.0) == Some(n as int),
        r is None <==> first_block_spec(range.0) is None,
{
    match range.0 {
        RangeBound::Included(n) => Some(n as i64),
        RangeBound::Excluded(n) => Some(n as i64 + 1),
        RangeBound::Unbounded => None,
    }
}

/// A stored error record.
#[derive(Debug, PartialEq, Eq)]
pub struct ErrorDetail {
    pub vid: i64,
    pub id: String,
    pub subgraph_id: String,
    pub message: String,
    pub block_hash: Option<Vec<u8>>,
    pub handler: Option<String>,
    pub deterministic: bool,
    pub block_range: (RangeBound, RangeBound),
}

/// An error that a subgraph ran into.
#[derive(Debug, PartialEq, Eq)]
pub struct SubgraphError {
    pub subgraph_id: DeploymentHash,
    pub message: String,
    pub block_ptr: Option<BlockPtr>,
    pub handler: Option<String>,
    pub deterministic: bool,
}

impl ErrorDetail {
    /// A stored hash, if any, has 32 bytes.
    pub open spec fn wf(&self) -> bool {
        self.block_hash matches Some(h) ==> h@.len() == HASH_LEN
    }
}

/// Converting `x` fails: its deployment identifier is invalid.
pub open spec fn error_detail_fails(x: ErrorDetail) -> bool {
    !is_valid_deployment_hash(x.subgraph_id@)
}

/// `p` is the block pointer of the error record `x`: present where the
/// range's first block is a block number (not below zero) and the hash is
/// present, else absent.
pub open spec fn error_ptr_is(p: Option<BlockPtr>, x: ErrorDetail) -> bool {
    match (first_block_spec(x.block_range.0), x.block_hash) {
        (Some(n), Some(h)) => if n >= 0 {
            p matches Some(b) && b.hash@ == h@ && b.number == n
        } else {
            p is None
        },
        _ => p is None,
    }
}

/// `s` is the subgraph error that the record `x` converts to.
pub open spec fn subgraph_error_is(s: SubgraphError, x: ErrorDetail) -> bool {
    &&& s.subgraph_id@ == x.subgraph_id@
    &&& s.message == x.message
    &&& error_ptr_is(s.block_ptr, x)
    &&& s.handler == x.handler
    &&& s.deterministic == x.deterministic
}

/// `e` is the error that converting the record `x` fails with.
pub open spec fn is_error_detail_error(e: ConstraintViolation, x: ErrorDetail) -> bool {
    e matches ConstraintViolation::InvalidSubgraphId { id } && id@ == x.subgraph_id@
}

impl SubgraphError {
    /// Converts a stored error record. The block pointer comes from the first
    /// block of the record's version range and its hash; where either is
    /// missing, or the first block is below zero, the pointer is absent.
    pub fn from_detail(x: ErrorDetail) -> (r: Result<SubgraphError, ConstraintViolation>)
        requires
            x.wf(),
        ensures
            r is Err <==> error_detail_fails(x),
            r matches Ok(s) ==> subgraph_error_is(s, x),
            r matches Err(e) ==> is_error_detail_error(e, x),
    {
        let block_number = first_block_in_range(&x.block_range);
        let ErrorDetail {
            vid: _,
            id: _,
            subgraph_id,
            message,
            block_hash,
            handler,
            deterministic,
            block_range: _,
        } = x;
        let block_ptr = match (block_number, block_hash) {
            (Some(n), Some(hash)) => if n >= 0 {
                Some(BlockPtr { hash, number: n as u64 })
            } else {
                None
            },
            _ => None,
        };
        match DeploymentHash::new(subgraph_id) {
            Ok(subgraph_id) => Ok(
                SubgraphError { subgraph_id, message, block_ptr, handler, deterministic },
            ),
            Err(id) => Err(ConstraintViolation::InvalidSubgraphId { id }),
        }
    }
}

} // verus!
