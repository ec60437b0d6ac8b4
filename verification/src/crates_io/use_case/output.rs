use std::collections::BTreeMap;

use vstd::prelude::*;

use crate::crates_io::repository::FetchCrateVersionDependenciesInput;

verus! {

/// Result returned by the use case, ready to be DTO-mapped by the
/// tool layer.
///
/// The `page` and `per_page` fields are the *effective* values used
/// against the registry — already defaulted and clamped — so the
/// caller can echo them back to the user without re-deriving.
#[derive(Debug, Clone)]
pub struct SearchCratesUseCaseOutput {
    /// Total number of matches across all pages.
    pub total: u64,
    /// 1-indexed page actually requested (after defaulting).
    pub page: u32,
    /// Page size actually requested (after clamping).
    pub per_page: u8,
    /// Crates on this page, in registry-returned order.
    pub crates: Vec<CrateSummary>,
}

/// A single crate hit with the version-selection policy already
/// applied — `version` here is the stable version when available,
/// falling back to `max_version` otherwise.
#[derive(Debug, Clone)]
pub struct CrateSummary {
    /// Crate name.
    pub name: String,
    /// Selected version: `max_stable_version` if present, else
    /// `max_version`. This is the policy choice the use case makes.
    pub version: String,
    /// Author-supplied short description from `Cargo.toml`.
    pub description: Option<String>,
    /// Lifetime download count.
    pub downloads: u64,
    /// Downloads in the last 90 days, when reported by the registry.
    pub recent_downloads: Option<u64>,
    /// Author-supplied documentation URL.
    pub documentation: Option<String>,
    /// Author-supplied homepage URL.
    pub homepage: Option<String>,
    /// Author-supplied source repository URL.
    pub repository: Option<String>,
    /// RFC 3339 timestamp of the most recent publish.
    pub updated_at: String,
}

/// Per-crate metadata bundle: versions, features and dependencies,
/// answering the "should I adopt this crate?" questions in one trip.
#[derive(Debug, Clone)]
pub struct CrateMetadata {
    /// Crate name as crates.io echoes it back.
    pub crate_name: String,
    /// The version the use case resolved against. If the input
    /// `version` was None or `latest`, this is the crate's stable
    /// (or fallback `max_version`) selection; otherwise it's the
    /// caller-specified concrete version.
    pub resolved_version: String,
    /// True when the resolved version is yanked on crates.io. Cached
    /// at the top level so the caller can flag this without scanning
    /// the `versions` list.
    pub resolved_version_yanked: bool,
    /// Recent versions of the crate, in registry order, capped at
    /// [`VERSIONS_CAP`]. `versions_truncated` indicates whether more
    /// existed beyond the cap.
    pub versions: Vec<CrateVersion>,
    /// True when the registry reported more versions than
    /// [`VERSIONS_CAP`].
    pub versions_truncated: bool,
    /// `Cargo.toml`'s `[features]` map for the resolved version. Each
    /// feature name maps to the list of features / optional
    /// dependencies it enables.
    pub features: BTreeMap<String, Vec<String>>,
    /// Dependency breakdown for the resolved version. Counts cover
    /// the full population; named entries only cover runtime deps and
    /// are capped at [`RUNTIME_DEPS_CAP`].
    pub dependencies: DependencySummary,
}

/// A single published version's headline fields, as surfaced to
/// callers.
#[derive(Debug, Clone)]
pub struct CrateVersion {
    /// Semver string (`1.40.0`).
    pub num: String,
    /// True when this version has been yanked.
    pub yanked: bool,
    /// RFC 3339 timestamp of publication.
    pub created_at: String,
}

/// Aggregated view of a version's dependencies.
///
/// Counts are always exact across all kinds. The named `runtime` list
/// is capped at [`RUNTIME_DEPS_CAP`].
#[derive(Debug, Clone)]
pub struct DependencySummary {
    /// Count of `[dependencies]` entries.
    pub runtime_count: usize,
    /// Count of `[dev-dependencies]` entries.
    pub dev_count: usize,
    /// Count of `[build-dependencies]` entries.
    pub build_count: usize,
    /// Count of deps declared with `optional = true`. Overlaps with
    /// the kind counts.
    pub optional_count: usize,
    /// Named runtime deps, capped at [`RUNTIME_DEPS_CAP`], in the
    /// registry-returned order.
    pub runtime: Vec<DependencyEntry>,
    /// True when the runtime list was truncated by the cap.
    pub runtime_truncated: bool,
}

/// A single named runtime dependency.
#[derive(Debug, Clone)]
pub struct DependencyEntry {
    /// Dependency crate name.
    pub name: String,
    /// Semver requirement as it appears in `Cargo.toml`.
    pub version_req: String,
    /// True when this dep is gated behind a feature.
    pub optional: bool,
}

/// A metadata bundle whose version has been resolved, waiting for the
/// dependency list of that version: everything of [`CrateMetadata`] but
/// `dependencies`, plus the request that fetches them.
#[derive(Debug, Clone)]
pub struct PendingCrateMetadata {
    /// Crate name as crates.io echoes it back.
    pub crate_name: String,
    /// The version resolved by the version-selection policy.
    pub resolved_version: String,
    /// True when the resolved version is yanked.
    pub resolved_version_yanked: bool,
    /// The first [`VERSIONS_CAP`] versions, in registry order.
    pub versions: Vec<CrateVersion>,
    /// True when the registry listed more than [`VERSIONS_CAP`] versions.
    pub versions_truncated: bool,
    /// The resolved version's feature map.
    pub features: BTreeMap<String, Vec<String>>,
    /// The dependencies request for the resolved version.
    pub dependencies_input: FetchCrateVersionDependenciesInput,
}

/// Upper bound on the number of versions surfaced by the use case.
pub const VERSIONS_CAP: usize = 20;

/// Upper bound on the named runtime dependencies surfaced. The full
/// count is always reported in `DependencySummary.runtime_count` even
/// when the named list is truncated.
pub const RUNTIME_DEPS_CAP: usize = 15;

} // verus!
