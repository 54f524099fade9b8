//! The values that a raft group replicates.
use vstd::prelude::*;

verus! {

pub type RaftNodeId = u64;

/// A member of a raft group.
#[derive(Debug, Clone, PartialEq, Eq, Default)]
pub struct RaftNodeInfo {
    /// The raft group.
    pub group_id: u32,
    /// The server's address.
    pub address: String,
}

/// A request applied through the log: store `value` under `key`.
#[derive(Debug, Clone)]
pub enum Request {
    SetKey { key: String, value: String },
}

/// What applying a request answers.
#[derive(Debug, Clone)]
pub struct Response {
    pub value: Option<String>,
}

} // verus!
