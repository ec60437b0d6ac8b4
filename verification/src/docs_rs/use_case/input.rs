use vstd::prelude::*;

verus! {

/// Pre-validation arguments accepted by the use case.
///
/// The use case is what enforces "non-empty crate name, default
/// `version` to `latest`, reject paths containing `..` or leading
/// slashes" — so unlike
/// [`FetchCrateDocsRepositoryInput`][crate::docs_rs::repository::FetchCrateDocsRepositoryInput],
/// the optional fields here have not been resolved yet.
#[derive(Debug, Clone)]
pub struct FetchCrateDocsUseCaseInput {
    /// Crate name as published on crates.io (e.g. `tokio`,
    /// `tokio-util`). Hyphens are translated to underscores when
    /// assembling the docs.rs URL.
    pub crate_name: String,
    /// Optional version selector. `None` or blank resolves to docs.rs's
    /// `latest` alias. Otherwise expects a string docs.rs accepts.
    pub version: Option<String>,
    /// Optional URL-path tail relative to the crate's documentation
    /// root. Examples: `task/struct.JoinHandle.html`,
    /// `sync/index.html`. `None` fetches the crate root.
    pub path: Option<String>,
}

/// Pre-validation arguments for the symbol-search operation.
#[derive(Debug, Clone)]
pub struct SearchCrateSymbolsUseCaseInput {
    /// Crate name. Same normalisation as
    /// [`FetchCrateDocsUseCaseInput::crate_name`].
    pub crate_name: String,
    /// Optional version selector. `None`/`"latest"` resolve to
    /// docs.rs's `latest` alias.
    pub version: Option<String>,
    /// Optional substring filter. `None` or empty matches every item.
    pub query: Option<String>,
    /// Optional kind filter (`struct`, `enum`, `trait`, `fn`, `macro`,
    /// `derive`, `attribute`, `type`, `module`, `constant`, `static`,
    /// `union`, `primitive`). Unknown kinds match nothing.
    pub kinds: Option<Vec<String>>,
    /// Optional cap on returned items (default 50, clamped to 500).
    pub limit: Option<u32>,
}

/// Pre-validation arguments for the doc-comment full-text search.
///
/// `query` is required and non-empty; it is matched case-insensitively
/// against each item's doc comment.
#[derive(Debug, Clone)]
pub struct SearchCrateDocsUseCaseInput {
    /// Crate name. Same normalisation as
    /// [`FetchCrateDocsUseCaseInput::crate_name`].
    pub crate_name: String,
    /// Optional version selector. `None`/`"latest"` resolve to
    /// docs.rs's `latest` alias.
    pub version: Option<String>,
    /// Required pattern. Empty / whitespace-only is rejected.
    pub query: String,
    /// Optional kind filter. Unknown kinds match nothing; an empty list
    /// is treated as "no filter".
    pub kinds: Option<Vec<String>>,
    /// Optional cap on returned items. Defaults to 20, clamped to 100.
    pub limit: Option<u32>,
}

} // verus!
