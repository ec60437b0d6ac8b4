use vstd::prelude::*;

use crate::crates_io::use_case::{CrateSummary, SearchCratesUseCaseOutput};

verus! {

/// Body returned by the `search_crates` tool.
///
/// Mirrors [`SearchCratesUseCaseOutput`] field for field.
#[derive(Debug)]
pub struct SearchCratesResponse {
    /// Total matches across all pages.
    pub total: u64,
    /// Effective 1-indexed page returned.
    pub page: u32,
    /// Effective page size returned.
    pub per_page: u8,
    /// Hits on this page.
    pub crates: Vec<CrateSummaryDto>,
}

/// Wire representation of a single crate hit. Optional fields are
/// dropped from the JSON output rather than serialized as `null`.
#[derive(Debug)]
pub struct CrateSummaryDto {
    /// Crate name.
    pub name: String,
    /// Selected version (stable when available, otherwise latest).
    pub version: String,
    /// Crate description, omitted from the JSON when missing.
    pub description: Option<String>,
    /// Lifetime download count.
    pub downloads: u64,
    /// Downloads in the last 90 days, omitted when missing.
    pub recent_downloads: Option<u64>,
    /// Documentation URL, omitted when missing.
    pub documentation: Option<String>,
    /// Homepage URL, omitted when missing.
    pub homepage: Option<String>,
    /// Source repository URL, omitted when missing.
    pub repository: Option<String>,
    /// RFC 3339 timestamp of the most recent publish.
    pub updated_at: String,
}

/// The wire form of one crate summary: every field carried over.
pub open spec fn summary_dto_of(summary: CrateSummary) -> CrateSummaryDto {
    CrateSummaryDto {
        name: summary.name,
        version: summary.version,
        description: summary.description,
        downloads: summary.downloads,
        recent_downloads: summary.recent_downloads,
        documentation: summary.documentation,
        homepage: summary.homepage,
        repository: summary.repository,
        updated_at: summary.updated_at,
    }
}

impl From<CrateSummary> for CrateSummaryDto {
    fn from(summary: CrateSummary) -> (r: Self) {
        Self {
            name: summary.name,
            version: summary.version,
            description: summary.description,
            downloads: summary.downloads,
            recent_downloads: summary.recent_downloads,
            documentation: summary.documentation,
            homepage: summary.homepage,
            repository: summary.repository,
            updated_at: summary.updated_at,
        }
    }
}

impl vstd::std_specs::convert::FromSpecImpl<CrateSummary> for CrateSummaryDto {
    open spec fn obeys_from_spec() -> bool {
        true
    }

    open spec fn from_spec(summary: CrateSummary) -> Self {
        summary_dto_of(summary)
    }
}

impl SearchCratesResponse {
    /// Build the tool response from the use case output, converting each
    /// hit in order.
    pub fn from_output(output: SearchCratesUseCaseOutput) -> (r: Self)
        ensures
            r.total == output.total,
            r.page == output.page,
            r.per_page == output.per_page,
            r.crates@.len() == output.crates@.len(),
            forall|i: int|
                0 <= i < output.crates@.len() ==> #[trigger] r.crates@[i] == summary_dto_of(
                    output.crates@[i],
                ),
    {
        let ghost hits = output.crates@;
        let mut crates: Vec<CrateSummaryDto> = Vec::new();
        for summary in it: output.crates
            invariant
                it.seq() == hits,
                crates@.len() == it.index(),
                forall|i: int| 0 <= i < it.index() ==> #[trigger] crates@[i] == summary_dto_of(hits[i]),
        {
            crates.push(CrateSummaryDto::from(summary));
        }
        SearchCratesResponse {
            total: output.total,
            page: output.page,
            per_page: output.per_page,
            crates,
        }
    }
}

} // verus!
