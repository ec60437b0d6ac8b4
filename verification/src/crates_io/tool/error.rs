use vstd::prelude::*;

use crate::crates_io::use_case::CratesIoUseCaseError;
use crate::text::{owned, push_str};
use crate::tool_result::{error_result_of, error_tool_result};

verus! {

/// Tool-layer wrapper around use case failures, responsible for
/// rendering them as MCP error results.
///
/// Kept distinct from `CratesIoUseCaseError` so the formatting choice
/// (what the model actually sees) lives at the protocol boundary,
/// not inside the use case.
#[derive(Debug)]
pub enum CratesIoToolError {
    /// Underlying use case failure.
    UseCase(CratesIoUseCaseError),
}

impl From<CratesIoUseCaseError> for CratesIoToolError {
    fn from(error: CratesIoUseCaseError) -> (r: Self) {
        CratesIoToolError::UseCase(error)
    }
}

impl vstd::std_specs::convert::FromSpecImpl<CratesIoUseCaseError> for CratesIoToolError {
    open spec fn obeys_from_spec() -> bool {
        true
    }

    open spec fn from_spec(error: CratesIoUseCaseError) -> Self {
        CratesIoToolError::UseCase(error)
    }
}

impl CratesIoToolError {
    /// The text shown to the model: caller mistakes are prefixed
    /// `Invalid request: `, everything else `Upstream failure: `.
    pub open spec fn tool_message_spec(&self, m: Seq<char>) -> bool {
        match self {
            CratesIoToolError::UseCase(CratesIoUseCaseError::InvalidQuery(reason)) => m
                == "Invalid request: "@ + reason@,
            CratesIoToolError::UseCase(CratesIoUseCaseError::InconsistentUpstream(reason)) => m
                == "Upstream failure: "@ + reason@,
            CratesIoToolError::UseCase(CratesIoUseCaseError::Repository(e)) => exists|t: Seq<
                char,
            >| e.message_spec(t) && m == "Upstream failure: "@ + t,
        }
    }

    /// Render the message of the error result: `Invalid request: ...` for
    /// user errors, `Upstream failure: ...` for upstream failures.
    pub fn tool_message(&self) -> (m: String)
        ensures
            self.tool_message_spec(m@),
    {
        match self {
            CratesIoToolError::UseCase(CratesIoUseCaseError::InvalidQuery(reason)) => {
                let mut m = owned("Invalid request: ");
                push_str(&mut m, reason.as_str());
                m
            },
            CratesIoToolError::UseCase(CratesIoUseCaseError::InconsistentUpstream(reason)) => {
                let mut m = owned("Upstream failure: ");
                push_str(&mut m, reason.as_str());
                m
            },
            CratesIoToolError::UseCase(CratesIoUseCaseError::Repository(e)) => {
                let t = e.message();
                let mut m = owned("Upstream failure: ");
                push_str(&mut m, t.as_str());
                m
            },
        }
    }

    /// Convert into an error-flavored MCP tool result whose single text
    /// content is [`Self::tool_message`].
    pub fn into_tool_result(self) -> (r: rmcp::model::CallToolResult)
        ensures
            exists|m: Seq<char>| self.tool_message_spec(m) && r == error_result_of(m),
    {
        let message = self.tool_message();
        let ghost m = message@;
        let r = error_tool_result(message);
        assert(self.tool_message_spec(m) && r == error_result_of(m));
        r
    }
}

} // verus!
