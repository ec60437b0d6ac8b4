use std::sync::Arc;

use vstd::prelude::*;

use crate::docs_rs::schema::DocsRsCrate;

verus! {

/// Repository-tier projection of a docs.rs fetch.
///
/// The repository hands back the raw HTML body together with the final
/// URL the client landed on (after redirects). docs.rs's `/latest/`
/// redirect is the main reason we capture the final URL — callers
/// often want to surface the resolved version to the user.
#[derive(Debug, Clone)]
pub struct FetchCrateDocsRepositoryOutput {
    /// Final URL the server actually served the response from,
    /// post-redirect.
    pub final_url: String,
    /// Raw HTML body returned by docs.rs.
    pub html: String,
}

/// Repository-tier projection of a
/// `/crate/{name}/{version}/json/{format}.zst` fetch: the normalized,
/// version-agnostic crate documentation, shared behind an `Arc` because
/// it is large.
#[derive(Debug, Clone)]
pub struct FetchRustdocJsonRepositoryOutput {
    /// Final URL the server actually served the response from,
    /// post-redirect.
    pub final_url: String,
    /// Decompressed, deserialized, and normalized rustdoc JSON.
    pub crate_json: Arc<DocsRsCrate>,
}

} // verus!
