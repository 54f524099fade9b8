# cnosdb (verified core)

The decision logic of a time-series database's metadata, tracing and
request handling, written in Verus and proved against its contracts.

- `src/` — the library. Each module states its rules as spec functions and
  proves the executable code against them: trace headers (`hex`, `jaeger`,
  `headers`, `trace_ctx`), the data model (`tag`, `column`, `schema`,
  `scan`), users and privileges (`privilege`, `user`), configuration
  (`config`, `store_config`), the metadata store's rules and contents (`meta_store`,
  `kv_store`, `bucket_store`, `meta_commands`, `meta_init`, `meta_error`), the coordinator
  (`coordinator`, `resource`, `resource_run`, `conn_pool`), query planning
  (`planner`, `ddl`, `connection`, `result_format`, `merge_limit`) and
  stream queries (`incremental`). Work that waits on other nodes or on
  storage is written as step functions from a state and an event to the
  next state and an action (`meta_init`, `resource_run`, `incremental`,
  the drop of a tenant's object in `ddl`).
- `tests/` — tests on concrete values.
- `app/` — the I/O around the library: HTTP header maps, configuration
  files and environment variables.

Outside crates are reached only through a few trusted wrappers, each with
a doc comment that says what its contract assumes: `bcrypt` (hashing and
verifying passwords), `rand` (fresh trace identifiers), `std::str::from_utf8`,
`str::to_ascii_lowercase` and `{:?}` of a string.
