use vstd::prelude::*;

use crate::docs_rs::repository::DocsRsRepositoryError;
use crate::text::{owned, push_str};

verus! {

/// Failures returned by the use case.
///
/// `InvalidInput` is a caller mistake the use case can reject without
/// hitting the network. `Repository` wraps the underlying HTTP-tier
/// failure transparently — the tool layer's formatter switches on
/// this distinction to give the model a "fix-your-input" vs
/// "upstream is broken" message.
#[derive(Debug)]
pub enum DocsRsUseCaseError {
    /// The request failed validation before any HTTP call was made —
    /// e.g. empty crate name, or a `path` containing `..`.
    InvalidInput(String),
    /// The repository call itself failed.
    Repository(DocsRsRepositoryError),
    /// docs.rs has no rustdoc JSON for the crate at any format version
    /// this build understands.
    FormatVersionUnavailable {
        /// Crate whose rustdoc JSON was requested.
        crate_name: String,
        /// Format versions that were tried, in order.
        tried: Vec<u32>,
    },
    /// An internal invariant did not hold.
    Internal(String),
}

impl From<DocsRsRepositoryError> for DocsRsUseCaseError {
    fn from(error: DocsRsRepositoryError) -> (r: Self) {
        DocsRsUseCaseError::Repository(error)
    }
}

impl vstd::std_specs::convert::FromSpecImpl<DocsRsRepositoryError> for DocsRsUseCaseError {
    open spec fn obeys_from_spec() -> bool {
        true
    }

    open spec fn from_spec(error: DocsRsRepositoryError) -> Self {
        DocsRsUseCaseError::Repository(error)
    }
}

} // verus!
