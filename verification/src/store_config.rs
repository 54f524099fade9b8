//! The configuration file of a meta node.
use vstd::prelude::*;

verus! {

/// What a new cluster is created with.
#[derive(Debug, Clone, PartialEq, Eq)]
pub struct MetaInit {
    pub cluster_name: String,
    pub admin_user: String,
    pub system_tenant: String,
    pub default_database: String,
}

/// The settings of a meta node.
#[derive(Debug, Clone, PartialEq, Eq)]
pub struct Opt {
    pub id: u64,
    pub http_addr: String,
    pub snapshot_path: String,
    pub journal_path: String,
    pub snapshot_per_events: u32,
    pub logs_path: String,
    pub logs_level: String,
    pub meta_init: MetaInit,
}

} // verus!
