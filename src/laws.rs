//! Properties that hold of the library for all inputs, proved from the
//! contracts of its functions.
use vstd::prelude::*;

use crate::block::{block_fails, block_inputs_ok, block_is, BlockPtr, EthereumBlock};
use crate::deployment_hash::is_valid_deployment_hash;
use crate::entity::{entity_fails, entity_is, is_entity_error, StoredSubgraphManifest, SubgraphDeploymentEntity};
use crate::error::ConstraintViolation;
use crate::numeric::{digits_value, lemma_above_u64_max, Numeric};
use vstd::arithmetic::power::pow;
use crate::status::{has_site, is_status_error, status_fails, DeploymentDetail, Site};
use crate::subgraph_error::{error_ptr_is, ErrorDetail, RangeBound};
use crate::version::{has_build, registered, rows_wf, same_build, GraphNodeVersion};

verus! {

/// A block pointer is absent when its hash and number both are; present,
/// with the hash and number given, when both are and the number is a whole
/// number from zero to `u64::MAX`; and building it fails when exactly one of
/// them is present or the number, whole or not, is above `u64::MAX`.
pub proof fn lemma_block_pointer_cases(hash: Option<Vec<u8>>, number: Option<Numeric>)
    requires
        block_inputs_ok(hash, number),
    ensures
        hash is None && number is None ==> !block_fails(hash, number) && forall|b: Option<
            EthereumBlock,
        >| block_is(b, hash, number) <==> b is None,
        (hash matches Some(h) && number matches Some(n) && !n.negative && n.scale == 0
            && digits_value(n.digits@) <= u64::MAX) ==> !block_fails(hash, number) && forall|
            b: Option<EthereumBlock>,
        |
            block_is(b, hash, number) ==> (b matches Some(x) && x.hash@ == hash->0@ && x.number
                == digits_value(number->0.digits@)),
        hash is Some != number is Some ==> block_fails(hash, number),
        (number matches Some(n) && n.above_u64_max()) ==> block_fails(hash, number),
        (number matches Some(n) && !n.negative && digits_value(n.digits@) > u64::MAX * pow(
            10,
            n.scale as nat,
        )) ==> block_fails(hash, number),
{
    if let Some(n) = number {
        lemma_above_u64_max(n);
        if n.scale == 0 {
            assert(n.int_digits() =~= n.digits@);
        }
    }
}

/// Whole, non-negative decimal numbers up to `u64::MAX` convert to `u64`
/// exactly; any number above `u64::MAX`, whole or not (its digits exceed
/// `u64::MAX * 10^scale`), does not convert.
pub proof fn lemma_count_conversion(n: Numeric)
    requires
        n.wf(),
    ensures
        (!n.negative && n.scale == 0 && digits_value(n.digits@) <= u64::MAX) ==> n.to_u64_spec()
            == Some(digits_value(n.digits@) as u64),
        (!n.negative && n.scale == 0 && digits_value(n.digits@) > u64::MAX) ==> n.to_u64_spec() is None,
        n.above_u64_max() ==> n.to_u64_spec() is None,
        (!n.negative && digits_value(n.digits@) > u64::MAX * pow(10, n.scale as nat))
            ==> n.to_u64_spec() is None,
{
    lemma_above_u64_max(n);
    if n.scale == 0 {
        assert(n.int_digits() =~= n.digits@);
        assert(n.frac_digits() =~= Seq::<u8>::empty());
    }
}

/// An error record whose version range starts at block `n` and which has a
/// hash gets a block pointer numbered `n`; one whose range is unbounded below,
/// or starts below block zero, gets none, with or without a hash.
pub proof fn lemma_error_block_pointer(x: ErrorDetail, p: Option<BlockPtr>)
    requires
        error_ptr_is(p, x),
    ensures
        match (x.block_range.0, x.block_hash) {
            (RangeBound::Included(n), Some(h)) => n >= 0 ==> (p matches Some(b) && b.number == n
                && b.hash@ == h@),
            _ => true,
        },
        match x.block_range.0 {
            RangeBound::Included(n) => n < 0 ==> p is None,
            _ => true,
        },
        x.block_range.0 is Unbounded ==> p is None,
{
}

/// A deployment that no site covers cannot have its status assembled: for any
/// site list, it fails with a missing-site violation.
pub proof fn lemma_missing_site_fails(
    d: DeploymentDetail,
    err: Option<ErrorDetail>,
    sites: Seq<Site>,
    e: ConstraintViolation,
)
    requires
        !has_site(sites, d.deployment@),
    ensures
        status_fails(d, err, sites),
        is_status_error(e, d, err, sites) ==> (e matches ConstraintViolation::MissingSite {
            deployment,
        } && deployment@ == d.deployment@),
{
}

/// A graft base that is empty or not a valid deployment identifier makes
/// reconstruction fail; a valid one is kept unchanged in the entity.
pub proof fn lemma_graft_base(
    d: DeploymentDetail,
    m: StoredSubgraphManifest,
    ent: SubgraphDeploymentEntity,
    e: ConstraintViolation,
)
    ensures
        d.graft_base matches Some(b) && (b@.len() == 0 || !is_valid_deployment_hash(b@))
            ==> entity_fails(d),
        match d.graft_base {
            Some(b) => (!is_valid_deployment_hash(b@) && !block_fails(
                d.earliest_ethereum_block_hash,
                d.earliest_ethereum_block_number,
            ) && !block_fails(d.latest_ethereum_block_hash, d.latest_ethereum_block_number)
                && !block_fails(d.graft_block_hash, d.graft_block_number) && is_entity_error(e, d))
                ==> (e matches ConstraintViolation::InvalidGraftBase { base } && base@ == b@),
            None => true,
        },
        match d.graft_base {
            Some(b) => entity_is(ent, d, m) ==> (ent.graft_base matches Some(g) && g@ == b@),
            None => true,
        },
{
}

/// Registering the same build twice returns the same identifier; registering
/// two builds whose fingerprints differ returns different identifiers.
pub proof fn lemma_registration_idempotent(
    t0: Seq<GraphNodeVersion>,
    t1: Seq<GraphNodeVersion>,
    t2: Seq<GraphNodeVersion>,
    a: GraphNodeVersion,
    b: GraphNodeVersion,
    id_a: i32,
    id_b: i32,
)
    requires
        rows_wf(t0),
        rows_wf(t1),
        registered(t0, a, t1, id_a),
        registered(t1, b, t2, id_b),
    ensures
        id_a == id_b <==> same_build(a, b),
{
    let i = choose|i: int| 0 <= i < t1.len() && #[trigger] t1[i].id == id_a && same_build(t1[i], a);
    let j = choose|j: int| 0 <= j < t2.len() && #[trigger] t2[j].id == id_b && same_build(t2[j], b);
    if j < t1.len() {
        assert(t2[j] == t1[j]) by {
            if !has_build(t1, b) {
                assert(t2.subrange(0, t1.len() as int)[j] == t2[j]);
            }
        }
    }
    if same_build(a, b) {
        assert(has_build(t1, b));
        assert(t2 == t1);
        if i != j {
            assert(!same_build(t1[i], t1[j]));
        }
    } else {
        if id_a == id_b {
            if j < t1.len() {
                assert(i == j);
            } else {
                assert(j == t1.len());
            }
        }
    }
}

} // verus!
