use vstd::prelude::*;

use crate::crates_io::repository::CratesIoRepositoryError;
use crate::text::{owned, push_str};

verus! {

/// Failures returned by the use case.
///
/// `InvalidQuery` is a caller mistake (user input the use case can
/// reject without ever hitting the network). `Repository` wraps the
/// underlying HTTP-tier failure transparently.
#[derive(Debug)]
pub enum CratesIoUseCaseError {
    /// The request failed validation before any HTTP call was made —
    /// e.g. empty query, or a metadata request naming a version that
    /// doesn't exist on the resolved crate.
    InvalidQuery(String),
    /// The registry responded successfully but the payload is
    /// internally inconsistent — e.g. `max_stable_version` names a
    /// version that doesn't appear in the `versions[]` list.
    InconsistentUpstream(String),
    /// The repository call itself failed.
    Repository(CratesIoRepositoryError),
}

impl CratesIoUseCaseError {
    /// Render this error as text, the way its `Display` reads: the
    /// repository failure itself for `Repository`.
    pub fn message(&self) -> (m: String)
        ensures
            match self {
                CratesIoUseCaseError::InvalidQuery(r) => m@ == "invalid request: "@ + r@,
                CratesIoUseCaseError::InconsistentUpstream(r) => m@
                    == "inconsistent upstream response: "@ + r@,
                CratesIoUseCaseError::Repository(e) => e.message_spec(m@),
            },
    {
        match self {
            CratesIoUseCaseError::InvalidQuery(r) => {
                let mut m = owned("invalid request: ");
                push_str(&mut m, r.as_str());
                m
            },
            CratesIoUseCaseError::InconsistentUpstream(r) => {
                let mut m = owned("inconsistent upstream response: ");
                push_str(&mut m, r.as_str());
                m
            },
            CratesIoUseCaseError::Repository(e) => e.message(),
        }
    }
}

impl From<CratesIoRepositoryError> for CratesIoUseCaseError {
    fn from(error: CratesIoRepositoryError) -> (r: Self) {
        CratesIoUseCaseError::Repository(error)
    }
}

impl vstd::std_specs::convert::FromSpecImpl<CratesIoRepositoryError> for CratesIoUseCaseError {
    open spec fn obeys_from_spec() -> bool {
        true
    }

    open spec fn from_spec(error: CratesIoRepositoryError) -> Self {
        CratesIoUseCaseError::Repository(error)
    }
}

} // verus!
