# local-memory-mcp

A local memory server for AI agents, spoken to over MCP on stdio: immutable
conversation events, long-term memory records with full-text, vector and
hybrid (reciprocal rank fusion) search, a knowledge graph between records,
namespaces, session checkpoints and branches, and several independent
SQLite store files.

## Layout

- `src/` — the library, verified with Verus: every check on tool arguments,
  the planning of searches and the fusion of their result lists, full-text
  query sanitization, the timeline query, schema migration and integrity
  decisions, store names, the base-directory checks, which store is active,
  the store listing, error responses and the defaults of every tool.
  Each public function states its result in its contract; the laws of the
  library (idempotent migration, actor-scoped timeline reads, inert and
  idempotent full-text queries, the ordering properties and the symmetry of
  rank fusion, the pinned active store and its connection, bounded retries,
  the three error codes) are proof functions.
- `app/` — the program around it: the MCP server (rmcp, tokio), the SQLite
  queries (rusqlite with sqlite-vec), the file system, JSON serialization of
  results, and the floating-point scores of search results.
- `tests/` — tests of the library.

## Configuration

| Environment variable | Default                | Meaning                                      |
| -------------------- | ---------------------- | -------------------------------------------- |
| `LOCAL_MEMORY_HOME`  | `~/.local-memory-mcp/` | Base directory of the store files            |
| `LOCAL_MEMORY_SYNC`  | `FULL`                 | SQLite synchronous mode (`FULL` or `normal`) |
| `RUST_LOG`           | `info`                 | Tracing filter                               |
