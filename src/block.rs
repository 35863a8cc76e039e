//! Block pointers built from a nullable hash and a nullable decimal number.
use vstd::prelude::*;

use crate::error::ConstraintViolation;
use crate::numeric::Numeric;

verus! {

/// Length of a block hash in bytes.
pub const HASH_LEN: usize = 32;

/// A block on a chain as reported in a status: its 32-byte hash and number.
#[derive(Clone, Debug, PartialEq, Eq)]
pub struct EthereumBlock {
    pub hash: Vec<u8>,
    pub number: u64,
}

/// A validated reference to a block: its 32-byte hash and number.
#[derive(Clone, Debug, PartialEq, Eq)]
pub struct BlockPtr {
    pub hash: Vec<u8>,
    pub number: u64,
}

impl EthereumBlock {
    /// The same block as a pointer.
    pub fn to_ptr(self) -> (r: BlockPtr)
        ensures
            r.hash@ == self.hash@,
            r.number == self.number,
    {
        BlockPtr { hash: self.hash, number: self.number }
    }
}

/// What `block` needs of its inputs: a number that is present is well formed,
/// and where both are present the hash has 32 bytes.
pub open spec fn block_inputs_ok(hash: Option<Vec<u8>>, number: Option<Numeric>) -> bool {
    &&& (number matches Some(n) ==> n.wf())
    &&& (hash matches Some(h) ==> number is Some ==> h@.len() == HASH_LEN)
}

/// Whether building a block from `hash` and `number` fails.
pub open spec fn block_fails(hash: Option<Vec<u8>>, number: Option<Numeric>) -> bool {
    match (hash, number) {
        (Some(_), Some(n)) => n.to_u64_spec() is None,
        (None, None) => false,
        _ => true,
    }
}

/// `b` is the block that `hash` and `number` describe, where building it
/// succeeds: present with both values where both are present, else absent.
pub open spec fn block_is(
    b: Option<EthereumBlock>,
    hash: Option<Vec<u8>>,
    number: Option<Numeric>,
) -> bool {
    match (hash, number) {
        (Some(h), Some(n)) => b matches Some(x) && x.hash@ == h@ && Some(x.number)
            == n.to_u64_spec(),
        _ => b is None,
    }
}

/// The pointer form of `block_is`.
pub open spec fn ptr_is(b: Option<BlockPtr>, hash: Option<Vec<u8>>, number: Option<Numeric>) -> bool {
    match (hash, number) {
        (Some(h), Some(n)) => b matches Some(x) && x.hash@ == h@ && Some(x.number)
            == n.to_u64_spec(),
        _ => b is None,
    }
}

/// `e` is the error that building the block named `name` of deployment `id`
/// from `hash` and `number` fails with.
pub open spec fn is_block_error(
    e: ConstraintViolation,
    id: Seq<char>,
    name: Seq<char>,
    hash: Option<Vec<u8>>,
    number: Option<Numeric>,
) -> bool {
    match (hash, number) {
        (Some(_), Some(n)) => e matches ConstraintViolation::BlockNumberOutOfRange {
            id: i,
            name: m,
            number: x,
        } && i@ == id && m@ == name && x == n,
        _ => e matches ConstraintViolation::BlockPointerMismatch {
            id: i,
            name: m,
            hash: h,
            number: x,
        } && i@ == id && m@ == name && h == hash && x == number,
    }
}

/// Builds the block named `name` of deployment `id` from its stored hash and
/// number, which must be both present or both absent.
pub fn block(id: &String, name: &str, hash: Option<Vec<u8>>, number: Option<Numeric>) -> (r: Result<
    Option<EthereumBlock>,
    ConstraintViolation,
>)
    requires
        block_inputs_ok(hash, number),
    ensures
        r is Err <==> block_fails(hash, number),
        r matches Ok(b) ==> block_is(b, hash, number),
        r matches Err(e) ==> is_block_error(e, id@, name@, hash, number),
{
    match (hash, number) {
        (Some(hash), Some(number)) => match number.to_u64() {
            Some(n) => Ok(Some(EthereumBlock { hash, number: n })),
            None => Err(
                ConstraintViolation::BlockNumberOutOfRange {
                    id: id.clone(),
                    name: name.to_owned(),
                    number,
                },
            ),
        },
        (None, None) => Ok(None),
        (hash, number) => Err(
            ConstraintViolation::BlockPointerMismatch {
                id: id.clone(),
                name: name.to_owned(),
                hash,
                number,
            },
        ),
    }
}

} // verus!
