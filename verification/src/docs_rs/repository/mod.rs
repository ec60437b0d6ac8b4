/// Configuration of the rustdoc-JSON cache.
pub mod cache;
/// Per-error-variant docs for repository failures.
pub mod error;
/// Input types accepted by the repository.
pub mod input;
/// Output types returned by the repository.
pub mod output;

pub use self::cache::{
    CachingDocsRsRepositoryConfig, DEFAULT_RUSTDOC_CACHE_CAPACITY, DEFAULT_RUSTDOC_CACHE_TTL_SECS,
};
pub use self::error::DocsRsRepositoryError;
pub use self::input::{FetchCrateDocsRepositoryInput, FetchRustdocJsonRepositoryInput};
pub use self::output::{FetchCrateDocsRepositoryOutput, FetchRustdocJsonRepositoryOutput};
