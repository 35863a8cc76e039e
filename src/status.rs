//! Deployment records, sites, and the assembly of per-deployment status.
use vstd::prelude::*;

use crate::block::{block, block_fails, block_inputs_ok, block_is, is_block_error, EthereumBlock};
use crate::deployment_hash::DeploymentHash;
use crate::error::ConstraintViolation;
use crate::numeric::Numeric;
use crate::subgraph_error::{
    error_detail_fails,
    is_error_detail_error,
    subgraph_error_is,
    ErrorDetail,
    SubgraphError,
};

verus! {

/// The health of a deployment.
#[derive(Clone, Copy, Debug, PartialEq, Eq, Structural)]
pub enum SubgraphHealth {
    Healthy,
    Unhealthy,
    Failed,
}

/// Where a deployment lives: its network and its shard.
#[derive(Debug, PartialEq, Eq)]
pub struct Site {
    pub id: i32,
    pub deployment: DeploymentHash,
    pub network: String,
    pub shard: String,
}

/// A stored deployment record.
#[derive(Debug, PartialEq, Eq)]
pub struct DeploymentDetail {
    pub id: i32,
    pub deployment: String,
    pub failed: bool,
    pub health: SubgraphHealth,
    pub synced: bool,
    pub fatal_error: Option<String>,
    pub non_fatal_errors: Vec<String>,
    pub earliest_ethereum_block_hash: Option<Vec<u8>>,
    pub earliest_ethereum_block_number: Option<Numeric>,
    pub latest_ethereum_block_hash: Option<Vec<u8>>,
    pub latest_ethereum_block_number: Option<Numeric>,
    pub last_healthy_ethereum_block_hash: Option<Vec<u8>>,
    pub last_healthy_ethereum_block_number: Option<Numeric>,
    pub entity_count: Numeric,
    pub graft_base: Option<String>,
    pub graft_block_hash: Option<Vec<u8>>,
    pub graft_block_number: Option<Numeric>,
    pub reorg_count: i32,
    pub current_reorg_depth: i32,
    pub max_reorg_depth: i32,
}

impl DeploymentDetail {
    /// The earliest, latest and graft block numbers are well formed, and a
    /// hash stored beside one of them has 32 bytes.
    pub open spec fn blocks_wf(&self) -> bool {
        &&& block_inputs_ok(self.earliest_ethereum_block_hash, self.earliest_ethereum_block_number)
        &&& block_inputs_ok(self.latest_ethereum_block_hash, self.latest_ethereum_block_number)
        &&& block_inputs_ok(self.graft_block_hash, self.graft_block_number)
    }
}

/// The state of a deployment on one chain. The chain head lives elsewhere
/// and is left unset here.
#[derive(Debug, PartialEq, Eq)]
pub struct ChainInfo {
    pub network: String,
    pub chain_head_block: Option<EthereumBlock>,
    pub earliest_block: Option<EthereumBlock>,
    pub latest_block: Option<EthereumBlock>,
}

/// The status of a deployment. The node it is assigned to lives elsewhere
/// and is left unset here.
#[derive(Debug, PartialEq, Eq)]
pub struct Info {
    pub subgraph: String,
    pub synced: bool,
    pub health: SubgraphHealth,
    pub fatal_error: Option<SubgraphError>,
    pub non_fatal_errors: Vec<SubgraphError>,
    pub chains: Vec<ChainInfo>,
    pub entity_count: u64,
    pub node: Option<String>,
}

/// Some site of `sites` is for the deployment `key`.
pub open spec fn has_site(sites: Seq<Site>, key: Seq<char>) -> bool {
    exists|i: int| 0 <= i < sites.len() && #[trigger] sites[i].deployment@ == key
}

/// `i` is the first site of `sites` for the deployment `key`.
pub open spec fn is_first_site(sites: Seq<Site>, key: Seq<char>, i: int) -> bool {
    &&& 0 <= i < sites.len()
    &&& sites[i].deployment@ == key
    &&& forall|j: int| 0 <= j < i ==> #[trigger] sites[j].deployment@ != key
}

/// Name under which the earliest block is reported in errors.
pub open spec fn earliest_name() -> Seq<char> {
    "earliest_ethereum_block"@
}

/// Name under which the latest block is reported in errors.
pub open spec fn latest_name() -> Seq<char> {
    "latest_ethereum_block"@
}

/// Assembling the status of `d` with error `err` against `sites` fails.
pub open spec fn status_fails(d: DeploymentDetail, err: Option<ErrorDetail>, sites: Seq<Site>) -> bool {
    ||| !has_site(sites, d.deployment@)
    ||| block_fails(d.earliest_ethereum_block_hash, d.earliest_ethereum_block_number)
    ||| block_fails(d.latest_ethereum_block_hash, d.latest_ethereum_block_number)
    ||| d.entity_count.to_u64_spec() is None
    ||| (err matches Some(x) && error_detail_fails(x))
}

/// `e` is the error that assembling the status of `d` fails with: the
/// first of the checks, in the order site, earliest block, latest block,
/// entity count, error record.
pub open spec fn is_status_error(
    e: ConstraintViolation,
    d: DeploymentDetail,
    err: Option<ErrorDetail>,
    sites: Seq<Site>,
) -> bool {
    if !has_site(sites, d.deployment@) {
        e matches ConstraintViolation::MissingSite { deployment } && deployment@ == d.deployment@
    } else if block_fails(d.earliest_ethereum_block_hash, d.earliest_ethereum_block_number) {
        is_block_error(
            e,
            d.deployment@,
            earliest_name(),
            d.earliest_ethereum_block_hash,
            d.earliest_ethereum_block_number,
        )
    } else if block_fails(d.latest_ethereum_block_hash, d.latest_ethereum_block_number) {
        is_block_error(
            e,
            d.deployment@,
            latest_name(),
            d.latest_ethereum_block_hash,
            d.latest_ethereum_block_number,
        )
    } else if d.entity_count.to_u64_spec() is None {
        e matches ConstraintViolation::EntityCountOutOfRange { deployment, count }
            && deployment@ == d.deployment@ && count == d.entity_count
    } else {
        err matches Some(x) && is_error_detail_error(e, x)
    }
}

/// `c` is the chain information of `d` on the network of site `site`.
pub open spec fn chain_is(c: ChainInfo, d: DeploymentDetail, site: Site) -> bool {
    &&& c.network@ == site.network@
    &&& c.chain_head_block is None
    &&& block_is(c.earliest_block, d.earliest_ethereum_block_hash, d.earliest_ethereum_block_number)
    &&& block_is(c.latest_block, d.latest_ethereum_block_hash, d.latest_ethereum_block_number)
}

/// `info` is the status of `d` with error `err` against `sites`.
pub open spec fn status_is(
    info: Info,
    d: DeploymentDetail,
    err: Option<ErrorDetail>,
    sites: Seq<Site>,
) -> bool {
    &&& info.subgraph@ == d.deployment@
    &&& info.synced == d.synced
    &&& info.health == d.health
    &&& match err {
        None => info.fatal_error is None,
        Some(x) => info.fatal_error matches Some(f) && subgraph_error_is(f, x),
    }
    &&& info.non_fatal_errors@.len() == 0
    &&& info.chains@.len() == 1
    &&& exists|i: int| is_first_site(sites, d.deployment@, i) && chain_is(info.chains@[0], d, sites[i])
    &&& Some(info.entity_count) == d.entity_count.to_u64_spec()
    &&& info.node is None
}

/// What assembling a status needs of its inputs: the earliest and latest
/// blocks and the entity count are well formed, and so is the error record.
pub open spec fn status_inputs_ok(d: DeploymentDetail, err: Option<ErrorDetail>) -> bool {
    &&& block_inputs_ok(d.earliest_ethereum_block_hash, d.earliest_ethereum_block_number)
    &&& block_inputs_ok(d.latest_ethereum_block_hash, d.latest_ethereum_block_number)
    &&& d.entity_count.wf()
    &&& (err matches Some(x) ==> x.wf())
}

/// The index of the first site for the deployment `key`, if any.
fn find_site(sites: &Vec<Site>, key: &String) -> (r: Option<usize>)
    ensures
        r is None <==> !has_site(sites@, key@),
        r matches Some(i) ==> is_first_site(sites@, key@, i as int),
{
    let mut i: usize = 0;
    while i < sites.len()
        invariant
            i <= sites@.len(),
            forall|j: int| 0 <= j < i ==> #[trigger] sites@[j].deployment@ != key@,
        decreases sites@.len() - i,
    {
        if sites[i].deployment.is(key) {
            return Some(i);
        }
        i = i + 1;
    }
    None
}

impl Info {
    /// Assembles the status of the deployment `d`, whose fatal error record is
    /// `err`, on the network that its site in `sites` names.
    pub fn from_detail(d: DeploymentDetail, err: Option<ErrorDetail>, sites: &Vec<Site>) -> (r:
        Result<Info, ConstraintViolation>)
        requires
            status_inputs_ok(d, err),
        ensures
            r is Err <==> status_fails(d, err, sites@),
            r matches Ok(info) ==> status_is(info, d, err, sites@),
            r matches Err(e) ==> is_status_error(e, d, err, sites@),
    {
        let ghost d0 = d;
        let i = match find_site(sites, &d.deployment) {
            Some(i) => i,
            None => {
                return Err(ConstraintViolation::MissingSite { deployment: d.deployment });
            },
        };
        let DeploymentDetail {
            deployment,
            health,
            synced,
            earliest_ethereum_block_hash,
            earliest_ethereum_block_number,
            latest_ethereum_block_hash,
            latest_ethereum_block_number,
            entity_count,
            ..
        } = d;
        let earliest_block = match block(
            &deployment,
            "earliest_ethereum_block",
            earliest_ethereum_block_hash,
            earliest_ethereum_block_number,
        ) {
            Ok(b) => b,
            Err(e) => {
                return Err(e);
            },
        };
        let latest_block = match block(
            &deployment,
            "latest_ethereum_block",
            latest_ethereum_block_hash,
            latest_ethereum_block_number,
        ) {
            Ok(b) => b,
            Err(e) => {
                return Err(e);
            },
        };
        let chain = ChainInfo {
            network: sites[i].network.clone(),
            chain_head_block: None,
            earliest_block,
            latest_block,
        };
        let entity_count = match entity_count.to_u64() {
            Some(n) => n,
            None => {
                return Err(
                    ConstraintViolation::EntityCountOutOfRange {
                        deployment,
                        count: entity_count,
                    },
                );
            },
        };
        let fatal_error = match err {
            None => None,
            Some(x) => match SubgraphError::from_detail(x) {
                Ok(f) => Some(f),
                Err(e) => {
                    return Err(e);
                },
            },
        };
        let mut chains: Vec<ChainInfo> = Vec::new();
        chains.push(chain);
        let info = Info {
            subgraph: deployment,
            synced,
            health,
            fatal_error,
            non_fatal_errors: Vec::new(),
            chains,
            entity_count,
            node: None,
        };
        assert(chain_is(info.chains@[0], d0, sites@[i as int]));
        Ok(info)
    }
}

/// The deployments that `sites` covers, in order.
pub fn site_deployments(sites: &Vec<Site>) -> (r: Vec<String>)
    ensures
        r@.len() == sites@.len(),
        forall|i: int| 0 <= i < sites@.len() ==> #[trigger] r@[i]@ == sites@[i].deployment@,
{
    let mut r: Vec<String> = Vec::new();
    let mut i: usize = 0;
    while i < sites.len()
        invariant
            i <= sites@.len(),
            r@.len() == i,
            forall|j: int| 0 <= j < i ==> #[trigger] r@[j]@ == sites@[j].deployment@,
        decreases sites@.len() - i,
    {
        r.push(sites[i].deployment.to_string());
        i = i + 1;
    }
    r
}

/// Index of the first row of `rows` whose status cannot be assembled, if any.
pub open spec fn first_failure(
    rows: Seq<(DeploymentDetail, Option<ErrorDetail>)>,
    sites: Seq<Site>,
    k: int,
) -> bool {
    &&& 0 <= k < rows.len()
    &&& status_fails(rows[k].0, rows[k].1, sites)
    &&& forall|j: int| 0 <= j < k ==> !status_fails(#[trigger] rows[j].0, rows[j].1, sites)
}

/// Assembles the status of each deployment row, paired with its fatal error
/// record, against `sites`. Fails with the first row that cannot be
/// assembled; there are no partial results.
pub fn deployment_statuses(
    rows: Vec<(DeploymentDetail, Option<ErrorDetail>)>,
    sites: &Vec<Site>,
) -> (r: Result<Vec<Info>, ConstraintViolation>)
    requires
        forall|i: int| 0 <= i < rows@.len() ==> status_inputs_ok(#[trigger] rows@[i].0, rows@[i].1),
    ensures
        r is Ok <==> forall|i: int| 0 <= i < rows@.len() ==> !status_fails(
            #[trigger] rows@[i].0,
            rows@[i].1,
            sites@,
        ),
        r matches Ok(v) ==> v@.len() == rows@.len() && forall|i: int|
            0 <= i < rows@.len() ==> status_is(#[trigger] v@[i], rows@[i].0, rows@[i].1, sites@),
        r matches Err(e) ==> exists|k: int|
            first_failure(rows@, sites@, k) && is_status_error(e, rows@[k].0, rows@[k].1, sites@),
{
    let ghost all = rows@;
    let n = rows.len();
    let mut rest = rows;
    let mut out: Vec<Info> = Vec::new();
    let mut i: usize = 0;
    while rest.len() > 0
        invariant
            all == rows@,
            n == all.len(),
            rest@ == all.subrange(i as int, all.len() as int),
            i <= all.len(),
            out@.len() == i,
            forall|j: int| 0 <= j < all.len() ==> status_inputs_ok(#[trigger] all[j].0, all[j].1),
            forall|j: int| 0 <= j < i ==> !status_fails(#[trigger] all[j].0, all[j].1, sites@),
            forall|j: int| 0 <= j < i ==> status_is(#[trigger] out@[j], all[j].0, all[j].1, sites@),
        decreases rest@.len(),
    {
        let (d, err) = rest.remove(0);
        assert(all[i as int] == (d, err));
        match Info::from_detail(d, err, sites) {
            Ok(info) => {
                out.push(info);
            },
            Err(e) => {
                assert(first_failure(all, sites@, i as int));
                return Err(e);
            },
        }
        i = i + 1;
    }
    Ok(out)
}

} // verus!
