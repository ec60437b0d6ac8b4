use vstd::prelude::*;

verus! {

/// Arguments sent down to the repository layer. Post-validation: the
/// use case has already trimmed the crate name, defaulted the version,
/// and resolved the URL-path tail.
#[derive(Debug, Clone)]
pub struct FetchCrateDocsRepositoryInput {
    /// Fully-assembled docs.rs URL to fetch. The use case is what
    /// builds this — the repository is dumb I/O.
    pub url: String,
}

/// Arguments for a rustdoc-JSON fetch: the fully-assembled docs.rs URL
/// of one zstd-compressed, format-versioned rustdoc JSON build.
#[derive(Debug, Clone)]
pub struct FetchRustdocJsonRepositoryInput {
    /// Fully-assembled docs.rs URL pointing at the zstd-compressed
    /// rustdoc JSON.
    pub url: String,
}

} // verus!
