//! Verified core of a time-series database's metadata, tracing and request logic.
pub mod hex;
pub mod headers;
pub mod jaeger;
pub mod trace_ctx;
pub mod text;
pub mod column;
pub mod sort;
pub mod schema;
pub mod privilege;
pub mod user;
pub mod tag;
pub mod config;
pub mod params;
pub mod replication;
pub mod store_config;
pub mod limiter;
pub mod result_format;
pub mod planner;
pub mod meta_error;
pub mod coordinator;
pub mod ddl;
pub mod resource;
pub mod merge_limit;
pub mod meta_store;
pub mod meta_init;
pub mod scan;
pub mod meta_commands;
pub mod conn_pool;
pub mod resource_run;
pub mod connection;
pub mod incremental;
pub mod bucket_store;
pub mod kv_store;
