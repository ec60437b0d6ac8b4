# mcp-rust-docs

An MCP server that answers questions about Rust crates: it searches the
crates.io registry and serves docs.rs documentation pages as Markdown.

## Layout

- `src/` — the verified library. Every decision the server makes is
  here, with its contract: input validation and normalisation, paging
  defaults and clamps, the version-selection policy, dependency
  summaries, docs.rs URL assembly and version read-back, the `<main>`
  extraction of rustdoc pages, HTTP status routing, bounded body reads,
  error rendering for tool results, and the `Host` allowlist of the
  serverless deployment.
  - `crates_io/` and `docs_rs/` each split into `repository` (shapes
    and rules of the upstream exchange), `use_case` (validation and
    projection) and `tool` (MCP-facing requests, responses and error
    text).
  - `text.rs` holds the character-level helpers and their models.
  - `upstream.rs` holds the values upstream exchanges leave in errors.
- `app/` — the program around it: the CLI, the MCP transports (stdio,
  streamable HTTP, Vercel), the `reqwest` repositories, the async use
  case flows that call the library between awaits, and the serde copies
  of the request and response types.
- `tests/` — scenario tests of the library.

The server has no in-process rustdoc-JSON cache (and no
`MCP_DOCS_RS_CACHE` switch): docs pages are fetched as HTML, which is
never cached, and there is no rustdoc-JSON fetch for such a cache to
front. `CachingDocsRsRepositoryConfig` keeps the cache's tunables.
