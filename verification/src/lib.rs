//! A verified core for a container-storage driver over declarative
//! object-storage backends: custom-resource reconciliation with
//! finalizer-based deletion, the node-side publish pipeline, the volume
//! registry, and the replica fan-out protocol.
pub mod auth;
pub mod backend;
pub mod controller_svc;
pub mod crd;
pub mod datanode_ctrl;
pub mod datapod_ctrl;
pub mod dict;
pub mod endpoint;
pub mod errors;
pub mod finalizer;
pub mod identity_svc;
pub mod ids;
pub mod meta;
pub mod mount;
pub mod node_svc;
pub mod replica_ctrl;
pub mod resource;
pub mod strings;
pub mod sync_status;
