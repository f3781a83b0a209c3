# unica_coder

The `unica` stdio MCP server for 1C:Enterprise workflows: one public MCP
server that lists the Unica tools and carries out tool calls through
private adapters (launcher scripts, skill scripts, the v8std standards
service), while keeping track of the workspace's caches and code index.

## Layout

- `src/` — the verified library (Verus).
  - `tools.rs`, `application.rs` — the tool catalogue, dry-run defaults,
    domain events and which adapter carries out a tool.
  - `argv.rs`, `adapters.rs`, `legacy.rs` — command lines of the launchers
    and skill scripts, and what a call reports before and after it runs.
  - `search.rs`, `index.rs`, `index_flow.rs` — code search, the RLM code
    index (reading `index info`, starting builds under a lock).
  - `standards.rs` — requests to the v8std MCP service and reading its
    replies.
  - `cache.rs` — the sorted cache table and the cache report of a call.
  - `mcp.rs` — the JSON-RPC messages of the server.
  - `json.rs`, `text.rs`, `events.rs`, `workspace.rs`, `outcome.rs` — JSON
    documents, text helpers, domain events, workspace paths, outcomes.
- `tests/` — tests of the library on concrete values.
- `app/` — the executable: stdio, processes, files, HTTP and SQLite, each
  step asked for by the library.
