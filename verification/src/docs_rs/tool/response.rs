use std::collections::BTreeMap;

use vstd::prelude::*;

use crate::crates_io::use_case::{CrateMetadata, CrateVersion, DependencyEntry, DependencySummary};
use crate::docs_rs::use_case::{
    DocHit, FetchCrateDocsUseCaseOutput, SearchCrateDocsUseCaseOutput,
    SearchCrateSymbolsUseCaseOutput, SymbolEntry,
};

verus! {

/// Body returned by the `get_crate_docs` tool.
///
/// Mirrors [`FetchCrateDocsUseCaseOutput`]. On crate-root calls (no
/// `path`), an optional `metadata` block is attached carrying versions /
/// features / dependencies fetched from crates.io. Drill-down calls keep
/// the lean response.
#[derive(Debug)]
pub struct GetCrateDocsResponse {
    /// Crate name as requested.
    pub crate_name: String,
    /// Concrete version docs.rs actually served, parsed out of the
    /// redirected URL; absent when the URL shape didn't match the
    /// expected `/{crate}/{version}/...` layout.
    pub resolved_version: Option<String>,
    /// Canonical URL of the page on docs.rs, after redirects.
    pub url: String,
    /// Page contents converted to Markdown (the `<main>` element only).
    pub markdown: String,
    /// Per-crate metadata when the call targets the crate root and the
    /// metadata fetch succeeded.
    pub metadata: Option<MetadataDto>,
    /// Set when a crate-root call attempted to fetch metadata but the
    /// crates.io call failed: the docs page still ships, and this field
    /// carries the reason.
    pub metadata_error: Option<String>,
}

/// Wire shape of the per-crate metadata bundle.
#[derive(Debug)]
pub struct MetadataDto {
    /// Crate name as crates.io echoes it back.
    pub crate_name: String,
    /// Version the use case resolved for features and dependencies.
    pub resolved_version: String,
    /// True when `resolved_version` is yanked.
    pub resolved_version_yanked: bool,
    /// Recent versions (newest first, capped).
    pub versions: Vec<CrateVersionDto>,
    /// True when more versions existed beyond the cap.
    pub versions_truncated: bool,
    /// `Cargo.toml`'s `[features]` map for the resolved version.
    pub features: BTreeMap<String, Vec<String>>,
    /// Dependency breakdown for the resolved version.
    pub dependencies: DependencySummaryDto,
}

/// Wire shape of a single version entry.
#[derive(Debug)]
pub struct CrateVersionDto {
    /// Semver string.
    pub num: String,
    /// Yanked flag.
    pub yanked: bool,
    /// RFC 3339 publish timestamp.
    pub created_at: String,
}

/// Wire shape of the dependency summary.
#[derive(Debug)]
pub struct DependencySummaryDto {
    /// `[dependencies]` count.
    pub runtime_count: usize,
    /// `[dev-dependencies]` count.
    pub dev_count: usize,
    /// `[build-dependencies]` count.
    pub build_count: usize,
    /// Count of optional deps (overlaps with kind counts).
    pub optional_count: usize,
    /// Named runtime deps (capped).
    pub runtime: Vec<DependencyEntryDto>,
    /// True when the runtime list was truncated.
    pub runtime_truncated: bool,
}

/// Wire shape of one runtime dependency entry.
#[derive(Debug)]
pub struct DependencyEntryDto {
    /// Dependency crate name.
    pub name: String,
    /// Semver requirement string.
    pub version_req: String,
    /// True for optional deps.
    pub optional: bool,
}

/// The wire form of one version: every field carried over.
pub open spec fn version_dto_of(v: CrateVersion) -> CrateVersionDto {
    CrateVersionDto { num: v.num, yanked: v.yanked, created_at: v.created_at }
}

/// The wire form of one runtime dependency: every field carried over.
pub open spec fn entry_dto_of(e: DependencyEntry) -> DependencyEntryDto {
    DependencyEntryDto { name: e.name, version_req: e.version_req, optional: e.optional }
}

/// `d` is the wire form of `s`: the counts and the truncation flag
/// carried over, and each runtime entry converted in order.
pub open spec fn summary_dto_matches(s: DependencySummary, d: DependencySummaryDto) -> bool {
    &&& d.runtime_count == s.runtime_count
    &&& d.dev_count == s.dev_count
    &&& d.build_count == s.build_count
    &&& d.optional_count == s.optional_count
    &&& d.runtime_truncated == s.runtime_truncated
    &&& d.runtime@.len() == s.runtime@.len()
    &&& forall|i: int|
        0 <= i < s.runtime@.len() ==> #[trigger] d.runtime@[i] == entry_dto_of(s.runtime@[i])
}

/// `d` is the wire form of `m`: the scalar fields and the feature map
/// carried over, each version converted in order, and the dependency
/// summary converted.
pub open spec fn metadata_dto_matches(m: CrateMetadata, d: MetadataDto) -> bool {
    &&& d.crate_name == m.crate_name
    &&& d.resolved_version == m.resolved_version
    &&& d.resolved_version_yanked == m.resolved_version_yanked
    &&& d.versions_truncated == m.versions_truncated
    &&& d.features == m.features
    &&& d.versions@.len() == m.versions@.len()
    &&& forall|i: int|
        0 <= i < m.versions@.len() ==> #[trigger] d.versions@[i] == version_dto_of(m.versions@[i])
    &&& summary_dto_matches(m.dependencies, d.dependencies)
}

impl From<CrateVersion> for CrateVersionDto {
    fn from(value: CrateVersion) -> (r: Self) {
        Self { num: value.num, yanked: value.yanked, created_at: value.created_at }
    }
}

impl vstd::std_specs::convert::FromSpecImpl<CrateVersion> for CrateVersionDto {
    open spec fn obeys_from_spec() -> bool {
        true
    }

    open spec fn from_spec(value: CrateVersion) -> Self {
        version_dto_of(value)
    }
}

impl From<DependencyEntry> for DependencyEntryDto {
    fn from(value: DependencyEntry) -> (r: Self) {
        Self { name: value.name, version_req: value.version_req, optional: value.optional }
    }
}

impl vstd::std_specs::convert::FromSpecImpl<DependencyEntry> for DependencyEntryDto {
    open spec fn obeys_from_spec() -> bool {
        true
    }

    open spec fn from_spec(value: DependencyEntry) -> Self {
        entry_dto_of(value)
    }
}

impl DependencySummaryDto {
    /// Convert a dependency summary into its wire form.
    pub fn from_summary(value: DependencySummary) -> (r: Self)
        ensures
            summary_dto_matches(value, r),
    {
        let ghost entries = value.runtime@;
        let mut runtime: Vec<DependencyEntryDto> = Vec::new();
        for entry in it: value.runtime
            invariant
                it.seq() == entries,
                runtime@.len() == it.index(),
                forall|i: int|
                    0 <= i < it.index() ==> #[trigger] runtime@[i] == entry_dto_of(entries[i]),
        {
            runtime.push(DependencyEntryDto::from(entry));
        }
        Self {
            runtime_count: value.runtime_count,
            dev_count: value.dev_count,
            build_count: value.build_count,
            optional_count: value.optional_count,
            runtime,
            runtime_truncated: value.runtime_truncated,
        }
    }
}

impl MetadataDto {
    /// Convert a metadata bundle into its wire form.
    pub fn from_metadata(value: CrateMetadata) -> (r: Self)
        ensures
            metadata_dto_matches(value, r),
    {
        let ghost listed = value.versions@;
        let mut versions: Vec<CrateVersionDto> = Vec::new();
        for v in it: value.versions
            invariant
                it.seq() == listed,
                versions@.len() == it.index(),
                forall|i: int|
                    0 <= i < it.index() ==> #[trigger] versions@[i] == version_dto_of(listed[i]),
        {
            versions.push(CrateVersionDto::from(v));
        }
        Self {
            crate_name: value.crate_name,
            resolved_version: value.resolved_version,
            resolved_version_yanked: value.resolved_version_yanked,
            versions,
            versions_truncated: value.versions_truncated,
            features: value.features,
            dependencies: DependencySummaryDto::from_summary(value.dependencies),
        }
    }
}

impl GetCrateDocsResponse {
    /// Build a response from the docs.rs use case output alone — used
    /// for drill-down calls where no metadata was fetched.
    pub fn from_docs_only(output: FetchCrateDocsUseCaseOutput) -> (r: Self)
        ensures
            r.crate_name == output.crate_name,
            r.resolved_version == output.resolved_version,
            r.url == output.final_url,
            r.markdown == output.markdown,
            r.metadata is None,
            r.metadata_error is None,
    {
        Self {
            crate_name: output.crate_name,
            resolved_version: output.resolved_version,
            url: output.final_url,
            markdown: output.markdown,
            metadata: None,
            metadata_error: None,
        }
    }

    /// Build a response from the docs.rs output plus the result of a
    /// metadata fetch attempt. `Ok` populates `metadata`; `Err`
    /// populates `metadata_error` with the message so the docs still
    /// ship.
    pub fn from_docs_and_metadata(
        output: FetchCrateDocsUseCaseOutput,
        metadata: Result<CrateMetadata, String>,
    ) -> (r: Self)
        ensures
            r.crate_name == output.crate_name,
            r.resolved_version == output.resolved_version,
            r.url == output.final_url,
            r.markdown == output.markdown,
            match metadata {
                Ok(m) => {
                    &&& r.metadata is Some
                    &&& metadata_dto_matches(m, r.metadata->0)
                    &&& r.metadata_error is None
                },
                Err(message) => r.metadata is None && r.metadata_error == Some(message),
            },
    {
        let mut response = Self::from_docs_only(output);
        match metadata {
            Ok(metadata) => response.metadata = Some(MetadataDto::from_metadata(metadata)),
            Err(message) => response.metadata_error = Some(message),
        }
        response
    }
}

/// Body returned by the `search_crate_symbols` tool.
#[derive(Debug)]
pub struct SearchCrateSymbolsResponse {
    /// Crate name as requested.
    pub crate_name: String,
    /// Concrete version docs.rs served the index from; absent when the
    /// URL shape didn't match `/{crate}/{version}/...`.
    pub resolved_version: Option<String>,
    /// Total items matching the filters before truncation.
    pub total_matched: usize,
    /// `true` when more items matched than were returned.
    pub truncated: bool,
    /// Matched items.
    pub items: Vec<SymbolDto>,
}

/// Wire representation of a single matched symbol.
#[derive(Debug)]
pub struct SymbolDto {
    /// Normalised rustdoc kind (`struct`, `enum`, `trait`, `fn`, …).
    pub kind: String,
    /// Fully-qualified item name as rustdoc renders it.
    pub name: String,
    /// URL-path tail relative to the crate docs root; pass it verbatim
    /// to `get_crate_docs.path`.
    pub path: String,
}

/// The wire form of one symbol: every field carried over.
pub open spec fn symbol_dto_of(entry: SymbolEntry) -> SymbolDto {
    SymbolDto { kind: entry.kind, name: entry.name, path: entry.path }
}

impl From<SymbolEntry> for SymbolDto {
    fn from(entry: SymbolEntry) -> (r: Self) {
        Self { kind: entry.kind, name: entry.name, path: entry.path }
    }
}

impl vstd::std_specs::convert::FromSpecImpl<SymbolEntry> for SymbolDto {
    open spec fn obeys_from_spec() -> bool {
        true
    }

    open spec fn from_spec(entry: SymbolEntry) -> Self {
        symbol_dto_of(entry)
    }
}

impl SearchCrateSymbolsResponse {
    /// Build the tool response from the use case output, converting each
    /// item in order.
    pub fn from_output(output: SearchCrateSymbolsUseCaseOutput) -> (r: Self)
        ensures
            r.crate_name == output.crate_name,
            r.resolved_version == output.resolved_version,
            r.total_matched == output.total_matched,
            r.truncated == output.truncated,
            r.items@.len() == output.items@.len(),
            forall|i: int|
                0 <= i < output.items@.len() ==> #[trigger] r.items@[i] == symbol_dto_of(
                    output.items@[i],
                ),
    {
        let ghost entries = output.items@;
        let mut items: Vec<SymbolDto> = Vec::new();
        for entry in it: output.items
            invariant
                it.seq() == entries,
                items@.len() == it.index(),
                forall|i: int|
                    0 <= i < it.index() ==> #[trigger] items@[i] == symbol_dto_of(entries[i]),
        {
            items.push(SymbolDto::from(entry));
        }
        Self {
            crate_name: output.crate_name,
            resolved_version: output.resolved_version,
            total_matched: output.total_matched,
            truncated: output.truncated,
            items,
        }
    }
}

/// Body returned by the `search_crate_docs` tool: the shape of
/// [`SearchCrateSymbolsResponse`] with an extra `snippet` on each hit.
#[derive(Debug)]
pub struct SearchCrateDocsResponse {
    /// Crate name as requested.
    pub crate_name: String,
    /// Concrete version docs.rs served the JSON from, when known.
    pub resolved_version: Option<String>,
    /// Total items matching the filters before truncation.
    pub total_matched: usize,
    /// `true` when more items matched than were returned.
    pub truncated: bool,
    /// Matched items, ranked by name-match bonus, hit count, then
    /// qualified name.
    pub items: Vec<DocHitDto>,
}

/// Wire representation of a single doc-comment match.
#[derive(Debug)]
pub struct DocHitDto {
    /// Normalised rustdoc kind.
    pub kind: String,
    /// Fully-qualified item name as rustdoc renders it.
    pub name: String,
    /// URL-path tail under the crate's docs root.
    pub path: String,
    /// Short excerpt centered on the first match, with `…` markers
    /// when truncated.
    pub snippet: String,
}

/// The wire form of one doc hit: every field carried over.
pub open spec fn hit_dto_of(hit: DocHit) -> DocHitDto {
    DocHitDto { kind: hit.kind, name: hit.name, path: hit.path, snippet: hit.snippet }
}

impl From<DocHit> for DocHitDto {
    fn from(hit: DocHit) -> (r: Self) {
        Self { kind: hit.kind, name: hit.name, path: hit.path, snippet: hit.snippet }
    }
}

impl vstd::std_specs::convert::FromSpecImpl<DocHit> for DocHitDto {
    open spec fn obeys_from_spec() -> bool {
        true
    }

    open spec fn from_spec(hit: DocHit) -> Self {
        hit_dto_of(hit)
    }
}

impl SearchCrateDocsResponse {
    /// Build the tool response from the use case output, converting each
    /// hit in order.
    pub fn from_output(output: SearchCrateDocsUseCaseOutput) -> (r: Self)
        ensures
            r.crate_name == output.crate_name,
            r.resolved_version == output.resolved_version,
            r.total_matched == output.total_matched,
            r.truncated == output.truncated,
            r.items@.len() == output.items@.len(),
            forall|i: int|
                0 <= i < output.items@.len() ==> #[trigger] r.items@[i] == hit_dto_of(
                    output.items@[i],
                ),
    {
        let ghost hits = output.items@;
        let mut items: Vec<DocHitDto> = Vec::new();
        for hit in it: output.items
            invariant
                it.seq() == hits,
                items@.len() == it.index(),
                forall|i: int|
                    0 <= i < it.index() ==> #[trigger] items@[i] == hit_dto_of(hits[i]),
        {
            items.push(DocHitDto::from(hit));
        }
        Self {
            crate_name: output.crate_name,
            resolved_version: output.resolved_version,
            total_matched: output.total_matched,
            truncated: output.truncated,
            items,
        }
    }
}

} // verus!
