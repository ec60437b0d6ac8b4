use vstd::prelude::*;

verus! {

/// Result returned by the use case, ready to be DTO-mapped by the
/// tool layer.
///
/// `resolved_version` reflects what docs.rs actually served — when
/// the caller asks for `latest`, this is the concrete version after
/// redirect. `final_url` is the canonical URL the doc page lives at.
#[derive(Debug, Clone)]
pub struct FetchCrateDocsUseCaseOutput {
    /// Crate name as requested (post-normalisation).
    pub crate_name: String,
    /// Version actually served by docs.rs, parsed out of the final
    /// URL. `None` if the URL didn't follow the expected
    /// `/{crate}/{version}/...` shape.
    pub resolved_version: Option<String>,
    /// Final URL the docs page was served from, after any redirects.
    pub final_url: String,
    /// Page contents converted to Markdown.
    pub markdown: String,
}

/// Result returned by the symbol-search use case.
#[derive(Debug, Clone)]
pub struct SearchCrateSymbolsUseCaseOutput {
    /// Crate name as requested (post-normalisation).
    pub crate_name: String,
    /// Concrete version docs.rs served, parsed out of the final URL.
    pub resolved_version: Option<String>,
    /// Total items matching `query`/`kinds` before `limit` was applied.
    pub total_matched: usize,
    /// `true` when more items matched than the limit returned.
    pub truncated: bool,
    /// Matched items.
    pub items: Vec<SymbolEntry>,
}

/// One item of a crate's symbol list.
#[derive(Debug, Clone)]
pub struct SymbolEntry {
    /// Normalised rustdoc kind: `struct`, `enum`, `trait`, `fn`, ….
    pub kind: String,
    /// Fully-qualified item name as rustdoc renders it.
    pub name: String,
    /// URL-path tail relative to the crate's docs root; pass it as the
    /// `path` argument of `get_crate_docs`.
    pub path: String,
}

/// Result returned by the doc-comment search use case.
#[derive(Debug, Clone)]
pub struct SearchCrateDocsUseCaseOutput {
    /// Crate name as requested (post-normalisation).
    pub crate_name: String,
    /// Concrete version docs.rs served the JSON from.
    pub resolved_version: Option<String>,
    /// Total items whose doc comments matched before `limit`.
    pub total_matched: usize,
    /// `true` when more items matched than the limit returned.
    pub truncated: bool,
    /// Matched items, ranked by (name-match bonus, hit count desc,
    /// qualified name asc).
    pub items: Vec<DocHit>,
}

/// One doc-comment match.
#[derive(Debug, Clone)]
pub struct DocHit {
    /// Normalised rustdoc kind.
    pub kind: String,
    /// Fully-qualified item name as rustdoc renders it.
    pub name: String,
    /// URL-path tail relative to the crate's docs root.
    pub path: String,
    /// Short excerpt of the doc comment centered on the first match.
    pub snippet: String,
}

} // verus!
