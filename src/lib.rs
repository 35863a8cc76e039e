//! Reconciliation of persisted deployment metadata into validated status and
//! entity objects: block pointers, error records, per-deployment status,
//! deployment entities and build provenance records.
pub mod deployment_hash;
pub mod block;
pub mod entity;
pub mod error;
pub mod laws;
pub mod numeric;
pub mod status;
pub mod subgraph_error;
pub mod version;
