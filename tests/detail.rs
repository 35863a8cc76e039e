use store_detail::block::{block, EthereumBlock};
use store_detail::deployment_hash::{check_deployment_hash, DeploymentHash};
use store_detail::entity::{deployment_entity, StoredSubgraphManifest};
use store_detail::error::ConstraintViolation;
use store_detail::numeric::Numeric;
use store_detail::status::{deployment_statuses, site_deployments, DeploymentDetail, Info, Site, SubgraphHealth};
use store_detail::subgraph_error::{first_block_in_range, ErrorDetail, RangeBound, SubgraphError};
use store_detail::version::{GraphNodeVersion, VersionTable};

fn num(digits: &str) -> Numeric {
    let ds: Vec<u8> = digits.bytes().map(|b| b - b'0').collect();
    Numeric::new(false, ds, 0).unwrap()
}

fn hash(b: u8) -> Vec<u8> {
    vec![b; 32]
}

fn site(key: &str, network: &str) -> Site {
    Site {
        id: 1,
        deployment: DeploymentHash::new(key.to_string()).unwrap(),
        network: network.to_string(),
        shard: "primary".to_string(),
    }
}

fn detail(key: &str) -> DeploymentDetail {
    DeploymentDetail {
        id: 1,
        deployment: key.to_string(),
        failed: false,
        health: SubgraphHealth::Healthy,
        synced: true,
        fatal_error: None,
        non_fatal_errors: vec![],
        earliest_ethereum_block_hash: None,
        earliest_ethereum_block_number: None,
        latest_ethereum_block_hash: None,
        latest_ethereum_block_number: None,
        last_healthy_ethereum_block_hash: None,
        last_healthy_ethereum_block_number: None,
        entity_count: num("0"),
        graft_base: None,
        graft_block_hash: None,
        graft_block_number: None,
        reorg_count: 3,
        current_reorg_depth: 1,
        max_reorg_depth: 2,
    }
}

fn error_detail(subgraph_id: &str, hash: Option<Vec<u8>>, lower: RangeBound) -> ErrorDetail {
    ErrorDetail {
        vid: 7,
        id: "err1".to_string(),
        subgraph_id: subgraph_id.to_string(),
        message: "boom".to_string(),
        block_hash: hash,
        handler: Some("handleTransfer".to_string()),
        deterministic: true,
        block_range: (lower, RangeBound::Unbounded),
    }
}

fn manifest() -> StoredSubgraphManifest {
    StoredSubgraphManifest {
        id: 1,
        spec_version: "0.0.2".to_string(),
        description: Some("a subgraph".to_string()),
        repository: None,
        features: vec!["grafting".to_string()],
        schema: "type Thing @entity { id: ID! }".to_string(),
        graph_node_version_id: 4,
    }
}

fn build(dirty: bool) -> GraphNodeVersion {
    GraphNodeVersion {
        id: 0,
        git_commit_hash: "abc123".to_string(),
        git_repository_dirty: dirty,
        crate_version: "0.22.0".to_string(),
        major: 0,
        minor: 22,
        patch: 0,
        pre_release: "".to_string(),
        rustc_version: "1.50.0".to_string(),
        rustc_host: "x86_64-unknown-linux-gnu".to_string(),
        rustc_channel: "Stable".to_string(),
    }
}

#[test]
fn block_both_absent_is_none() {
    let id = "sg1".to_string();
    assert_eq!(block(&id, "latest_ethereum_block", None, None), Ok(None));
}

#[test]
fn block_both_present_echoes_values() {
    let id = "sg1".to_string();
    let r = block(&id, "earliest_ethereum_block", Some(hash(0xAA)), Some(num("100")));
    assert_eq!(r, Ok(Some(EthereumBlock { hash: hash(0xAA), number: 100 })));
}

#[test]
fn block_hash_without_number_fails() {
    let id = "sg1".to_string();
    let r = block(&id, "earliest_ethereum_block", Some(hash(1)), None);
    assert_eq!(
        r,
        Err(ConstraintViolation::BlockPointerMismatch {
            id: "sg1".to_string(),
            name: "earliest_ethereum_block".to_string(),
            hash: Some(hash(1)),
            number: None,
        })
    );
}

#[test]
fn block_number_without_hash_fails() {
    let id = "sg1".to_string();
    let r = block(&id, "latest_ethereum_block", None, Some(num("5")));
    assert!(matches!(r, Err(ConstraintViolation::BlockPointerMismatch { .. })));
}

#[test]
fn block_number_at_u64_max() {
    let id = "sg1".to_string();
    let r = block(&id, "b", Some(hash(2)), Some(num("18446744073709551615"))).unwrap().unwrap();
    assert_eq!(r.number, u64::MAX);
}

#[test]
fn block_number_above_u64_max_fails() {
    let id = "sg1".to_string();
    let r = block(&id, "b", Some(hash(2)), Some(num("18446744073709551616")));
    assert!(matches!(r, Err(ConstraintViolation::BlockNumberOutOfRange { .. })));
}

fn frac(digits: &str, scale: usize) -> Numeric {
    let ds: Vec<u8> = digits.bytes().map(|b| b - b'0').collect();
    Numeric::new(false, ds, scale).unwrap()
}

#[test]
fn block_number_just_above_u64_max_fails() {
    let id = "sg1".to_string();
    let r = block(&id, "earliest_ethereum_block", Some(hash(2)), Some(frac("184467440737095516155", 1)));
    assert_eq!(
        r,
        Err(ConstraintViolation::BlockNumberOutOfRange {
            id: "sg1".to_string(),
            name: "earliest_ethereum_block".to_string(),
            number: frac("184467440737095516155", 1),
        })
    );
}

#[test]
fn u64_max_with_zero_fraction_converts() {
    assert_eq!(frac("1844674407370955161500", 2).to_u64(), Some(u64::MAX));
    assert_eq!(frac("184467440737095516145", 1).to_u64(), Some(u64::MAX - 1));
    assert_eq!(frac("1844674407370955161501", 2).to_u64(), None);
}

#[test]
fn status_entity_count_just_above_u64_max_fails() {
    let mut d = detail("sg1");
    d.entity_count = frac("184467440737095516155", 1);
    let r = Info::from_detail(d, None, &vec![site("sg1", "mainnet")]);
    assert_eq!(
        r,
        Err(ConstraintViolation::EntityCountOutOfRange {
            deployment: "sg1".to_string(),
            count: frac("184467440737095516155", 1),
        })
    );
}

#[test]
fn entity_earliest_block_just_above_u64_max_fails() {
    let mut d = detail("sg1");
    d.earliest_ethereum_block_hash = Some(hash(1));
    d.earliest_ethereum_block_number = Some(frac("184467440737095516155", 1));
    match deployment_entity(d, manifest()) {
        Err(ConstraintViolation::BlockNumberOutOfRange { name, .. }) => assert_eq!(name, "earliest_block"),
        other => panic!("unexpected {:?}", other),
    }
}

#[test]
fn status_ignores_graft_fields() {
    let mut d = detail("sg1");
    d.graft_block_hash = Some(vec![1, 2, 3]);
    d.graft_block_number = Some(num("9"));
    assert!(Info::from_detail(d, None, &vec![site("sg1", "mainnet")]).is_ok());
}

#[test]
fn error_negative_first_block_has_no_pointer() {
    let e = SubgraphError::from_detail(error_detail("sg1", Some(hash(3)), RangeBound::Included(-1))).unwrap();
    assert!(e.block_ptr.is_none());
    let e = SubgraphError::from_detail(error_detail("sg1", Some(hash(3)), RangeBound::Excluded(-1))).unwrap();
    assert_eq!(e.block_ptr.unwrap().number, 0);
}

#[test]
fn numeric_conversions() {
    assert_eq!(num("42").to_u64(), Some(42));
    assert_eq!(num("0042").to_u64(), Some(42));
    assert_eq!(num("").to_u64(), Some(0));
    assert_eq!(Numeric::new(false, vec![1, 2, 7], 1).unwrap().to_u64(), Some(12));
    assert_eq!(Numeric::new(false, vec![5], 3).unwrap().to_u64(), Some(0));
    assert_eq!(Numeric::new(true, vec![4, 2], 0).unwrap().to_u64(), None);
    assert_eq!(Numeric::new(true, vec![0, 0], 0).unwrap().to_u64(), Some(0));
    assert_eq!(num("99999999999999999999").to_u64(), None);
    assert!(Numeric::new(false, vec![1, 10], 0).is_none());
}

#[test]
fn deployment_hash_rules() {
    assert!(check_deployment_hash("QmSomeHash_123"));
    assert!(!check_deployment_hash(""));
    assert!(!check_deployment_hash("has-dash"));
    assert!(!check_deployment_hash("has space"));
    assert!(check_deployment_hash(&"a".repeat(46)));
    assert!(!check_deployment_hash(&"a".repeat(47)));
    assert_eq!(DeploymentHash::new("bad id".to_string()), Err("bad id".to_string()));
    assert_eq!(DeploymentHash::new("good".to_string()).unwrap().as_str(), "good");
}

#[test]
fn first_block_of_ranges() {
    assert_eq!(first_block_in_range(&(RangeBound::Included(10), RangeBound::Unbounded)), Some(10));
    assert_eq!(first_block_in_range(&(RangeBound::Excluded(10), RangeBound::Included(20))), Some(11));
    assert_eq!(first_block_in_range(&(RangeBound::Unbounded, RangeBound::Unbounded)), None);
}

#[test]
fn error_pointer_from_range_lower_bound() {
    let e = SubgraphError::from_detail(error_detail("sg1", Some(hash(3)), RangeBound::Included(100))).unwrap();
    let p = e.block_ptr.unwrap();
    assert_eq!(p.number, 100);
    assert_eq!(p.hash, hash(3));
    assert_eq!(e.subgraph_id.as_str(), "sg1");
    assert_eq!(e.message, "boom");
    assert_eq!(e.handler, Some("handleTransfer".to_string()));
    assert!(e.deterministic);
}

#[test]
fn error_pointer_from_excluded_bound() {
    let e = SubgraphError::from_detail(error_detail("sg1", Some(hash(3)), RangeBound::Excluded(99))).unwrap();
    assert_eq!(e.block_ptr.unwrap().number, 100);
}

#[test]
fn error_unversioned_range_has_no_pointer() {
    let e = SubgraphError::from_detail(error_detail("sg1", Some(hash(3)), RangeBound::Unbounded)).unwrap();
    assert!(e.block_ptr.is_none());
    let e = SubgraphError::from_detail(error_detail("sg1", None, RangeBound::Unbounded)).unwrap();
    assert!(e.block_ptr.is_none());
}

#[test]
fn error_without_hash_has_no_pointer() {
    let e = SubgraphError::from_detail(error_detail("sg1", None, RangeBound::Included(5))).unwrap();
    assert!(e.block_ptr.is_none());
}

#[test]
fn error_with_invalid_subgraph_id_fails() {
    let r = SubgraphError::from_detail(error_detail("not valid!", None, RangeBound::Included(5)));
    assert_eq!(r, Err(ConstraintViolation::InvalidSubgraphId { id: "not valid!".to_string() }));
}

#[test]
fn status_scenario_earliest_only() {
    let mut d = detail("sg1");
    d.earliest_ethereum_block_hash = Some(hash(0xAA));
    d.earliest_ethereum_block_number = Some(num("100"));
    d.entity_count = num("42");
    let sites = vec![site("sg1", "mainnet")];
    let info: Info = Info::from_detail(d, None, &sites).unwrap();
    assert_eq!(info.subgraph, "sg1");
    assert!(info.synced);
    assert_eq!(info.health, SubgraphHealth::Healthy);
    assert_eq!(info.entity_count, 42);
    assert!(info.fatal_error.is_none());
    assert!(info.non_fatal_errors.is_empty());
    assert!(info.node.is_none());
    assert_eq!(info.chains.len(), 1);
    let c = &info.chains[0];
    assert_eq!(c.network, "mainnet");
    assert_eq!(c.earliest_block, Some(EthereumBlock { hash: hash(0xAA), number: 100 }));
    assert!(c.latest_block.is_none());
    assert!(c.chain_head_block.is_none());
}

#[test]
fn status_scenario_hash_without_number() {
    let mut d = detail("sg1");
    d.earliest_ethereum_block_hash = Some(hash(0xAA));
    let sites = vec![site("sg1", "mainnet")];
    match Info::from_detail(d, None, &sites) {
        Err(ConstraintViolation::BlockPointerMismatch { name, id, .. }) => {
            assert_eq!(name, "earliest_ethereum_block");
            assert_eq!(id, "sg1");
        }
        other => panic!("unexpected {:?}", other),
    }
}

#[test]
fn status_missing_site_fails() {
    let sites = vec![site("sg2", "mainnet"), site("sg3", "ropsten")];
    let r = Info::from_detail(detail("sg1"), None, &sites);
    assert_eq!(r, Err(ConstraintViolation::MissingSite { deployment: "sg1".to_string() }));
}

#[test]
fn status_entity_count_too_large_fails() {
    let mut d = detail("sg1");
    d.entity_count = num("18446744073709551616");
    let r = Info::from_detail(d, None, &vec![site("sg1", "mainnet")]);
    assert!(matches!(r, Err(ConstraintViolation::EntityCountOutOfRange { .. })));
}

#[test]
fn status_latest_block_named_in_error() {
    let mut d = detail("sg1");
    d.latest_ethereum_block_number = Some(num("7"));
    match Info::from_detail(d, None, &vec![site("sg1", "mainnet")]) {
        Err(ConstraintViolation::BlockPointerMismatch { name, .. }) => assert_eq!(name, "latest_ethereum_block"),
        other => panic!("unexpected {:?}", other),
    }
}

#[test]
fn status_with_fatal_error() {
    let sites = vec![site("sg1", "mainnet")];
    let err = error_detail("sg1", Some(hash(9)), RangeBound::Included(12));
    let info = Info::from_detail(detail("sg1"), Some(err), &sites).unwrap();
    let f = info.fatal_error.unwrap();
    assert_eq!(f.block_ptr.unwrap().number, 12);
    assert!(info.non_fatal_errors.is_empty());
}

#[test]
fn status_with_invalid_fatal_error_fails() {
    let sites = vec![site("sg1", "mainnet")];
    let err = error_detail("bad-id", None, RangeBound::Included(12));
    let r = Info::from_detail(detail("sg1"), Some(err), &sites);
    assert_eq!(r, Err(ConstraintViolation::InvalidSubgraphId { id: "bad-id".to_string() }));
}

#[test]
fn statuses_with_empty_site_list_fail() {
    let rows = vec![(detail("sg1"), None)];
    let r = deployment_statuses(rows, &vec![]);
    assert_eq!(r, Err(ConstraintViolation::MissingSite { deployment: "sg1".to_string() }));
}

#[test]
fn statuses_of_no_rows() {
    assert_eq!(deployment_statuses(vec![], &vec![]), Ok(vec![]));
}

#[test]
fn statuses_one_per_row() {
    let sites = vec![site("sg1", "mainnet"), site("sg2", "ropsten")];
    let rows = vec![(detail("sg2"), None), (detail("sg1"), None)];
    let v = deployment_statuses(rows, &sites).unwrap();
    assert_eq!(v.len(), 2);
    assert_eq!(v[0].subgraph, "sg2");
    assert_eq!(v[0].chains[0].network, "ropsten");
    assert_eq!(v[1].subgraph, "sg1");
    assert_eq!(v[1].chains[0].network, "mainnet");
}

#[test]
fn statuses_fail_on_first_bad_row() {
    let sites = vec![site("sg1", "mainnet")];
    let rows = vec![(detail("sg1"), None), (detail("sg4"), None), (detail("sg5"), None)];
    let r = deployment_statuses(rows, &sites);
    assert_eq!(r, Err(ConstraintViolation::MissingSite { deployment: "sg4".to_string() }));
}

#[test]
fn site_deployment_keys() {
    let sites = vec![site("sg1", "mainnet"), site("sg2", "ropsten")];
    assert_eq!(site_deployments(&sites), vec!["sg1".to_string(), "sg2".to_string()]);
}

#[test]
fn entity_with_valid_graft_base() {
    let mut d = detail("sg1");
    d.graft_base = Some("QmBase".to_string());
    d.graft_block_hash = Some(hash(4));
    d.graft_block_number = Some(num("55"));
    d.latest_ethereum_block_hash = Some(hash(5));
    d.latest_ethereum_block_number = Some(num("60"));
    let e = deployment_entity(d, manifest()).unwrap();
    assert_eq!(e.graft_base.unwrap().as_str(), "QmBase");
    assert_eq!(e.graft_block.unwrap().number, 55);
    assert_eq!(e.latest_block.unwrap().number, 60);
    assert!(e.earliest_block.is_none());
    assert!(e.fatal_error.is_none());
    assert!(e.non_fatal_errors.is_empty());
    assert_eq!(e.reorg_count, 3);
    assert_eq!(e.current_reorg_depth, 1);
    assert_eq!(e.max_reorg_depth, 2);
    assert_eq!(e.manifest.spec_version, "0.0.2");
    assert_eq!(e.manifest.features, vec!["grafting".to_string()]);
}

#[test]
fn entity_with_empty_graft_base_fails() {
    let mut d = detail("sg1");
    d.graft_base = Some("".to_string());
    let r = deployment_entity(d, manifest());
    assert_eq!(r, Err(ConstraintViolation::InvalidGraftBase { base: "".to_string() }));
}

#[test]
fn entity_with_malformed_graft_base_fails() {
    let mut d = detail("sg1");
    d.graft_base = Some("no/slashes".to_string());
    let r = deployment_entity(d, manifest());
    assert_eq!(r, Err(ConstraintViolation::InvalidGraftBase { base: "no/slashes".to_string() }));
}

#[test]
fn entity_graft_block_named_in_error() {
    let mut d = detail("sg1");
    d.graft_block_hash = Some(hash(4));
    match deployment_entity(d, manifest()) {
        Err(ConstraintViolation::BlockPointerMismatch { name, .. }) => assert_eq!(name, "graft_block"),
        other => panic!("unexpected {:?}", other),
    }
}

#[test]
fn registration_is_idempotent() {
    let mut t = VersionTable::new();
    let a = t.create_or_get(build(false)).unwrap();
    let b = t.create_or_get(build(false)).unwrap();
    assert_eq!(a, b);
    assert_eq!(t.rows.len(), 1);
}

#[test]
fn changed_fingerprint_gets_new_id() {
    let mut t = VersionTable::new();
    let a = t.create_or_get(build(false)).unwrap();
    let b = t.create_or_get(build(true)).unwrap();
    assert_ne!(a, b);
    assert_eq!(t.create_or_get(build(false)).unwrap(), a);
    assert_eq!(t.create_or_get(build(true)).unwrap(), b);
    assert_eq!(t.rows.len(), 2);
}

fn parts(p: &[&str]) -> Vec<String> {
    p.iter().map(|s| s.to_string()).collect()
}

#[test]
fn repository_found_in_ancestor() {
    let start = parts(&["home", "me", "graph-node", "store", "postgres"]);
    let marks = vec![false, false, true, false, false, false];
    let p = GraphNodeVersion::find_git_repository_path(&start, &marks).unwrap();
    assert_eq!(p, parts(&["home", "me", "graph-node", ".git"]));
}

#[test]
fn repository_found_at_start() {
    let start = parts(&["src"]);
    let p = GraphNodeVersion::find_git_repository_path(&start, &vec![true, true]).unwrap();
    assert_eq!(p, parts(&["src", ".git"]));
}

#[test]
fn repository_not_found() {
    let start = parts(&["a", "b"]);
    assert!(GraphNodeVersion::find_git_repository_path(&start, &vec![false, false, false]).is_none());
}
