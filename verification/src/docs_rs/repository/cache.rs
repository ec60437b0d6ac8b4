//! Configuration of the in-process cache of rustdoc JSON.
//!
//! The cache is meant for successful rustdoc-JSON fetches, keyed by the
//! requested URL, with errors never cached (agents retry expecting
//! fixes, and 404s can be transient) and HTML fetches passing through
//! uncached. This library has no rustdoc-JSON fetch for it to sit in
//! front of — docs pages are fetched as HTML only — so the server runs
//! without a cache; the configuration type and its defaults are kept as
//! the tunables such a cache takes.

use std::time::Duration;

use vstd::prelude::*;

verus! {

/// Default time-to-live of a cached rustdoc JSON entry, in seconds.
/// Bounds `latest` staleness globally; concrete versions are immutable.
pub const DEFAULT_RUSTDOC_CACHE_TTL_SECS: u64 = 600;

/// Default maximum number of distinct `(crate, version)` rustdoc JSON
/// payloads held in memory.
pub const DEFAULT_RUSTDOC_CACHE_CAPACITY: u64 = 16;

/// `Duration::from_secs`. `Duration` is opaque here; nothing is stated
/// of the result.
#[verifier::external_body]
fn duration_from_secs(secs: u64) -> Duration {
    Duration::from_secs(secs)
}

/// Tunables for the rustdoc-JSON cache. Defaults to
/// [`DEFAULT_RUSTDOC_CACHE_TTL_SECS`] / [`DEFAULT_RUSTDOC_CACHE_CAPACITY`].
#[derive(Debug, Clone, Copy)]
pub struct CachingDocsRsRepositoryConfig {
    /// How long a cached rustdoc JSON entry remains fresh.
    pub ttl: Duration,
    /// Maximum number of `(crate, version)` payloads to retain.
    pub max_entries: u64,
}

impl Default for CachingDocsRsRepositoryConfig {
    /// The default configuration; its `ttl` is
    /// `Duration::from_secs(DEFAULT_RUSTDOC_CACHE_TTL_SECS)`, which the
    /// contract cannot state since `Duration` is opaque here.
    fn default() -> (c: Self)
        ensures
            c.max_entries == DEFAULT_RUSTDOC_CACHE_CAPACITY,
    {
        Self {
            ttl: duration_from_secs(DEFAULT_RUSTDOC_CACHE_TTL_SECS),
            max_entries: DEFAULT_RUSTDOC_CACHE_CAPACITY,
        }
    }
}

} // verus!
