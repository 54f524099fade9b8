//! Query-string parameters of the HTTP endpoints.
use vstd::prelude::*;

verus! {

/// Parameters of a SQL query.
#[derive(Debug, Clone, Default)]
pub struct SqlParam {
    pub tenant: Option<String>,
    pub db: Option<String>,
    pub chunked: Option<bool>,
    /// Number of partitions for query execution; more partitions, more concurrency.
    pub target_partitions: Option<usize>,
    pub stream_trigger_interval: Option<String>,
}

/// Parameters of a write.
#[derive(Debug, Clone, Default)]
pub struct WriteParam {
    pub precision: Option<String>,
    pub tenant: Option<String>,
    pub db: Option<String>,
}

/// Parameters of a dump.
#[derive(Debug, Clone, Default)]
pub struct DumpParam {
    pub tenant: Option<String>,
}

/// Parameters of a debug request.
#[derive(Debug, Clone, Default)]
pub struct DebugParam {
    pub id: Option<u32>,
}

/// Parameters of an Elasticsearch-style log write.
#[derive(Debug, Clone, Default)]
pub struct ESLogParam {
    pub tenant: Option<String>,
    pub db: Option<String>,
    pub table: Option<String>,
    pub have_es_command: Option<bool>,
    pub tag_columns: Option<String>,
    pub time_column: Option<String>,
}

/// Parameters of a point-cloud write.
#[derive(Debug, Clone, Default)]
pub struct PointCloudParam {
    pub tenant: Option<String>,
    pub db: Option<String>,
    pub file: Option<String>,
}

} // verus!
