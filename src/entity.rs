//! Reconstruction of deployment entities from a deployment record and its
//! manifest record.
use vstd::prelude::*;

use crate::block::{block, block_fails, is_block_error, ptr_is, BlockPtr};
use crate::deployment_hash::{is_valid_deployment_hash, DeploymentHash};
use crate::error::ConstraintViolation;
use crate::status::{DeploymentDetail, SubgraphHealth};
use crate::subgraph_error::SubgraphError;

verus! {

/// A stored manifest record.
#[derive(Debug, PartialEq, Eq)]
pub struct StoredSubgraphManifest {
    pub id: i32,
    pub spec_version: String,
    pub description: Option<String>,
    pub repository: Option<String>,
    pub features: Vec<String>,
    pub schema: String,
    pub graph_node_version_id: i32,
}

/// The manifest of a deployment.
#[derive(Debug, PartialEq, Eq)]
pub struct SubgraphManifestEntity {
    pub spec_version: String,
    pub description: Option<String>,
    pub repository: Option<String>,
    pub features: Vec<String>,
    pub schema: String,
}

impl SubgraphManifestEntity {
    /// The manifest held in a stored manifest record.
    pub fn from_stored(m: StoredSubgraphManifest) -> (r: SubgraphManifestEntity)
        ensures
            r.spec_version == m.spec_version,
            r.description == m.description,
            r.repository == m.repository,
            r.features == m.features,
            r.schema == m.schema,
    {
        SubgraphManifestEntity {
            spec_version: m.spec_version,
            description: m.description,
            repository: m.repository,
            features: m.features,
            schema: m.schema,
        }
    }
}

/// A deployment, as reconstructed from storage. Its errors are not joined
/// here: the fatal error is unset and the list of others empty.
#[derive(Debug, PartialEq, Eq)]
pub struct SubgraphDeploymentEntity {
    pub manifest: SubgraphManifestEntity,
    pub failed: bool,
    pub health: SubgraphHealth,
    pub synced: bool,
    pub fatal_error: Option<SubgraphError>,
    pub non_fatal_errors: Vec<SubgraphError>,
    pub earliest_block: Option<BlockPtr>,
    pub latest_block: Option<BlockPtr>,
    pub graft_base: Option<DeploymentHash>,
    pub graft_block: Option<BlockPtr>,
    pub reorg_count: i32,
    pub current_reorg_depth: i32,
    pub max_reorg_depth: i32,
}

/// Name under which the earliest block is reported in errors.
pub open spec fn earliest_block_name() -> Seq<char> {
    "earliest_block"@
}

/// Name under which the latest block is reported in errors.
pub open spec fn latest_block_name() -> Seq<char> {
    "latest_block"@
}

/// Name under which the graft block is reported in errors.
pub open spec fn graft_block_name() -> Seq<char> {
    "graft_block"@
}

/// The graft base of `d` is present and not a valid deployment identifier.
pub open spec fn graft_base_fails(d: DeploymentDetail) -> bool {
    d.graft_base matches Some(b) && !is_valid_deployment_hash(b@)
}

/// Reconstructing the entity of `d` fails.
pub open spec fn entity_fails(d: DeploymentDetail) -> bool {
    ||| block_fails(d.earliest_ethereum_block_hash, d.earliest_ethereum_block_number)
    ||| block_fails(d.latest_ethereum_block_hash, d.latest_ethereum_block_number)
    ||| block_fails(d.graft_block_hash, d.graft_block_number)
    ||| graft_base_fails(d)
}

/// `e` is the error that reconstructing the entity of `d` fails with: the
/// first of the checks, in the order earliest, latest and graft block, graft
/// base.
pub open spec fn is_entity_error(e: ConstraintViolation, d: DeploymentDetail) -> bool {
    if block_fails(d.earliest_ethereum_block_hash, d.earliest_ethereum_block_number) {
        is_block_error(
            e,
            d.deployment@,
            earliest_block_name(),
            d.earliest_ethereum_block_hash,
            d.earliest_ethereum_block_number,
        )
    } else if block_fails(d.latest_ethereum_block_hash, d.latest_ethereum_block_number) {
        is_block_error(
            e,
            d.deployment@,
            latest_block_name(),
            d.latest_ethereum_block_hash,
            d.latest_ethereum_block_number,
        )
    } else if block_fails(d.graft_block_hash, d.graft_block_number) {
        is_block_error(e, d.deployment@, graft_block_name(), d.graft_block_hash, d.graft_block_number)
    } else {
        e matches ConstraintViolation::InvalidGraftBase { base } && d.graft_base matches Some(b)
            && base@ == b@
    }
}

/// `ent` is the entity of the deployment record `d` with the manifest `m`.
pub open spec fn entity_is(ent: SubgraphDeploymentEntity, d: DeploymentDetail, m: StoredSubgraphManifest) -> bool {
    &&& ent.manifest.spec_version == m.spec_version
    &&& ent.manifest.description == m.description
    &&& ent.manifest.repository == m.repository
    &&& ent.manifest.features == m.features
    &&& ent.manifest.schema == m.schema
    &&& ent.failed == d.failed
    &&& ent.health == d.health
    &&& ent.synced == d.synced
    &&& ent.fatal_error is None
    &&& ent.non_fatal_errors@.len() == 0
    &&& ptr_is(ent.earliest_block, d.earliest_ethereum_block_hash, d.earliest_ethereum_block_number)
    &&& ptr_is(ent.latest_block, d.latest_ethereum_block_hash, d.latest_ethereum_block_number)
    &&& ptr_is(ent.graft_block, d.graft_block_hash, d.graft_block_number)
    &&& match d.graft_base {
        None => ent.graft_base is None,
        Some(b) => ent.graft_base matches Some(g) && g@ == b@,
    }
    &&& ent.reorg_count == d.reorg_count
    &&& ent.current_reorg_depth == d.current_reorg_depth
    &&& ent.max_reorg_depth == d.max_reorg_depth
}

/// Reconstructs the entity of the deployment record `d` with its manifest
/// record `m`.
pub fn deployment_entity(d: DeploymentDetail, m: StoredSubgraphManifest) -> (r: Result<
    SubgraphDeploymentEntity,
    ConstraintViolation,
>)
    requires
        d.blocks_wf(),
    ensures
        r is Err <==> entity_fails(d),
        r matches Ok(ent) ==> entity_is(ent, d, m),
        r matches Err(e) ==> is_entity_error(e, d),
{
    let manifest = SubgraphManifestEntity::from_stored(m);
    let earliest_block = match block(
        &d.deployment,
        "earliest_block",
        d.earliest_ethereum_block_hash,
        d.earliest_ethereum_block_number,
    ) {
        Ok(Some(b)) => Some(b.to_ptr()),
        Ok(None) => None,
        Err(e) => {
            return Err(e);
        },
    };
    let latest_block = match block(
        &d.deployment,
        "latest_block",
        d.latest_ethereum_block_hash,
        d.latest_ethereum_block_number,
    ) {
        Ok(Some(b)) => Some(b.to_ptr()),
        Ok(None) => None,
        Err(e) => {
            return Err(e);
        },
    };
    let graft_block = match block(&d.deployment, "graft_block", d.graft_block_hash, d.graft_block_number) {
        Ok(Some(b)) => Some(b.to_ptr()),
        Ok(None) => None,
        Err(e) => {
            return Err(e);
        },
    };
    let graft_base = match d.graft_base {
        None => None,
        Some(b) => match DeploymentHash::new(b) {
            Ok(h) => Some(h),
            Err(base) => {
                return Err(ConstraintViolation::InvalidGraftBase { base });
            },
        },
    };
    Ok(
        SubgraphDeploymentEntity {
            manifest,
            failed: d.failed,
            health: d.health,
            synced: d.synced,
            fatal_error: None,
            non_fatal_errors: Vec::new(),
            earliest_block,
            latest_block,
            graft_base,
            graft_block,
            reorg_count: d.reorg_count,
            current_reorg_depth: d.current_reorg_depth,
            max_reorg_depth: d.max_reorg_depth,
        },
    )
}

} // verus!
