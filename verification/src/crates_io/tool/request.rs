use vstd::prelude::*;

use crate::crates_io::use_case::SearchCratesUseCaseInput;

verus! {

/// Arguments of the `search_crates` tool.
#[derive(Debug)]
pub struct SearchCratesRequest {
    /// Search query. Matches against crate name, description and keywords.
    pub query: String,
    /// Max number of results per page (1-100). Defaults to 10.
    pub per_page: Option<u8>,
    /// 1-indexed page number. Defaults to 1.
    pub page: Option<u32>,
}

impl From<SearchCratesRequest> for SearchCratesUseCaseInput {
    fn from(request: SearchCratesRequest) -> (r: Self) {
        Self { query: request.query, per_page: request.per_page, page: request.page }
    }
}

impl vstd::std_specs::convert::FromSpecImpl<SearchCratesRequest> for SearchCratesUseCaseInput {
    open spec fn obeys_from_spec() -> bool {
        true
    }

    open spec fn from_spec(request: SearchCratesRequest) -> Self {
        Self { query: request.query, per_page: request.per_page, page: request.page }
    }
}

} // verus!
