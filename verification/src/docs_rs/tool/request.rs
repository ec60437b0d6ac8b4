use vstd::prelude::*;

use crate::crates_io::use_case::GetCrateMetadataUseCaseInput;
use crate::docs_rs::use_case::{
    non_blank, FetchCrateDocsUseCaseInput, SearchCrateSymbolsUseCaseInput,
};
use crate::text::trimmed;

verus! {

/// Arguments for the `get_crate_docs` tool.
#[derive(Debug)]
pub struct GetCrateDocsRequest {
    /// Crate name as published on crates.io (e.g. `tokio`,
    /// `tokio-util`, `serde`). Hyphens in the crate name are
    /// automatically translated to underscores in the resulting
    /// docs.rs URL.
    pub crate_name: String,
    /// Version selector. Accepts a concrete semver string
    /// (`1.40.0`), a docs.rs range (`^1`, `1.*`), or the literal
    /// string `latest`. Defaults to `latest`.
    pub version: Option<String>,
    /// URL-path tail relative to the crate's documentation root.
    /// Examples: `task/struct.JoinHandle.html`, `sync/index.html`,
    /// `macro.tokio_test.html`. Omit to fetch the crate root.
    pub path: Option<String>,
}

impl From<GetCrateDocsRequest> for FetchCrateDocsUseCaseInput {
    fn from(request: GetCrateDocsRequest) -> (r: Self) {
        Self { crate_name: request.crate_name, version: request.version, path: request.path }
    }
}

impl vstd::std_specs::convert::FromSpecImpl<GetCrateDocsRequest> for FetchCrateDocsUseCaseInput {
    open spec fn obeys_from_spec() -> bool {
        true
    }

    open spec fn from_spec(request: GetCrateDocsRequest) -> Self {
        Self { crate_name: request.crate_name, version: request.version, path: request.path }
    }
}

/// The crates.io metadata request that accompanies a docs request: a
/// call that targets the crate root (no path, or a blank one) also asks
/// for the crate's metadata, with the crate name and version as given;
/// a drill-down call (a non-blank path) asks for none.
pub fn root_metadata_request(input: &FetchCrateDocsUseCaseInput) -> (r: Option<
    GetCrateMetadataUseCaseInput,
>)
    ensures
        match r {
            Some(m) => non_blank(input.path) is None && m.crate_name == input.crate_name
                && m.version == input.version,
            None => non_blank(input.path) is Some,
        },
{
    let root = match &input.path {
        Some(p) => {
            let t = trimmed(p.as_str());
            t.as_str().is_empty()
        },
        None => true,
    };
    if root {
        Some(
            GetCrateMetadataUseCaseInput {
                crate_name: input.crate_name.clone(),
                version: input.version.clone(),
            },
        )
    } else {
        None
    }
}

/// Arguments for the `search_crate_symbols` tool.
///
/// Pair this with `get_crate_docs`: the `path` field on each returned
/// symbol can be passed straight through as `get_crate_docs.path` to
/// fetch the documentation page for that item.
#[derive(Debug)]
pub struct SearchCrateSymbolsRequest {
    /// Crate name as published on crates.io.
    pub crate_name: String,
    /// Version selector. Defaults to `latest`.
    pub version: Option<String>,
    /// Case-insensitive substring matched against each item's
    /// qualified name (e.g. `de::value::U8Deserializer`). Omit or
    /// pass an empty string to match every item.
    pub query: Option<String>,
    /// Optional kind filter (`struct`, `enum`, `trait`, `union`, `macro`,
    /// `derive`, `attribute`, `fn`, `type`, `module`, `constant`,
    /// `static`, `primitive`), case-insensitive. Unknown values match
    /// nothing; an empty list is treated as "no filter".
    pub kinds: Option<Vec<String>>,
    /// Maximum items to return. Defaults to 50, clamped to 500.
    pub limit: Option<u32>,
}

impl From<SearchCrateSymbolsRequest> for SearchCrateSymbolsUseCaseInput {
    fn from(request: SearchCrateSymbolsRequest) -> (r: Self) {
        Self {
            crate_name: request.crate_name,
            version: request.version,
            query: request.query,
            kinds: request.kinds,
            limit: request.limit,
        }
    }
}

impl vstd::std_specs::convert::FromSpecImpl<SearchCrateSymbolsRequest> for SearchCrateSymbolsUseCaseInput {
    open spec fn obeys_from_spec() -> bool {
        true
    }

    open spec fn from_spec(request: SearchCrateSymbolsRequest) -> Self {
        Self {
            crate_name: request.crate_name,
            version: request.version,
            query: request.query,
            kinds: request.kinds,
            limit: request.limit,
        }
    }
}

} // verus!
