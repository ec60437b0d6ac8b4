//! Verified core of an MCP server that answers questions about Rust crates
//! from crates.io and docs.rs.

pub mod crates_io;
pub mod docs_rs;
pub mod router;
pub mod text;
pub mod tool_result;
pub mod upstream;
pub mod validation;
pub mod vercel;

pub use crate::router::{
    CRATES_IO_BASE_URL, DEFAULT_HTTP_CONNECT_TIMEOUT_SECS, DEFAULT_HTTP_TIMEOUT_SECS,
    DEFAULT_UPSTREAM_BODY_BYTES, DEFAULT_USER_AGENT, DOCS_RS_BASE_URL,
};

use vstd::prelude::*;

use crate::crates_io::use_case::SearchCratesUseCaseInput;

verus! {

/// Arguments of the `search_crates` tool as the server receives them.
#[derive(Debug)]
pub struct SearchCratesArgs {
    /// Search query. Matches against crate name, description and keywords.
    pub query: String,
    /// Max number of results per page (1-100). Defaults to 10.
    pub per_page: Option<u8>,
    /// 1-indexed page number. Defaults to 1.
    pub page: Option<u32>,
}

impl From<SearchCratesArgs> for SearchCratesUseCaseInput {
    fn from(args: SearchCratesArgs) -> (r: Self) {
        Self { query: args.query, per_page: args.per_page, page: args.page }
    }
}

impl vstd::std_specs::convert::FromSpecImpl<SearchCratesArgs> for SearchCratesUseCaseInput {
    open spec fn obeys_from_spec() -> bool {
        true
    }

    open spec fn from_spec(args: SearchCratesArgs) -> Self {
        Self { query: args.query, per_page: args.per_page, page: args.page }
    }
}

} // verus!
