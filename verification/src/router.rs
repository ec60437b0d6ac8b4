//! Upstream defaults shared by the server builder.

use vstd::prelude::*;

verus! {

/// Default crates.io upstream — the public registry.
pub const CRATES_IO_BASE_URL: &'static str = "https://crates.io";

/// Default docs.rs upstream — the public documentation host.
pub const DOCS_RS_BASE_URL: &'static str = "https://docs.rs";

/// Default overall HTTP request timeout of the built-in HTTP client, in
/// seconds.
///
/// Without this cap a stuck upstream socket pins the request handler
/// indefinitely — the streamable-HTTP transport has no per-call
/// deadline of its own. 30s is generous for docs.rs's largest rustdoc
/// JSON downloads while still surfacing a real outage as an error
/// instead of a hang.
pub const DEFAULT_HTTP_TIMEOUT_SECS: u64 = 30;

/// Default TCP-connect timeout of the built-in HTTP client, in seconds.
/// Distinct from the overall request timeout so a dead upstream fails
/// fast at the SYN-ACK stage rather than burning the full request
/// budget.
pub const DEFAULT_HTTP_CONNECT_TIMEOUT_SECS: u64 = 10;

/// Default per-response body size cap applied to both upstream
/// repositories.
///
/// The largest payload either upstream serves in practice is the
/// zstd-compressed rustdoc JSON for huge crates — tens of MB. 128 MB
/// leaves headroom for outliers while keeping a misbehaving mirror
/// from pinning the process with a 10 GB body.
pub const DEFAULT_UPSTREAM_BODY_BYTES: usize = 128 * 1024 * 1024;

/// Default `User-Agent` header sent by the built-in HTTP client.
///
/// crates.io requires a contactable User-Agent on every request; this
/// embeds the crate version and source URL so the registry can reach
/// out if anything misbehaves.
pub const DEFAULT_USER_AGENT: &'static str = "mcp-rust-docs/0.1.0 (+https://github.com/46ki75/mcp-rust-docs)";

} // verus!
