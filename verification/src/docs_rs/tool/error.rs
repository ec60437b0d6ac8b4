use vstd::prelude::*;

use crate::docs_rs::repository::DocsRsRepositoryError;
use crate::docs_rs::use_case::DocsRsUseCaseError;
use crate::text::{debug_u32_list, owned, push_str, push_u32_list};
use crate::tool_result::{error_result_of, error_tool_result};

verus! {

/// Tool-layer wrapper around use case failures, responsible for
/// rendering them as MCP error results.
///
/// Kept distinct from `DocsRsUseCaseError` so the formatting choice
/// (what the model actually sees) lives at the protocol boundary,
/// not inside the use case.
#[derive(Debug)]
pub enum DocsRsToolError {
    /// Underlying use case failure.
    UseCase(DocsRsUseCaseError),
}

impl From<DocsRsUseCaseError> for DocsRsToolError {
    fn from(error: DocsRsUseCaseError) -> (r: Self) {
        DocsRsToolError::UseCase(error)
    }
}

impl vstd::std_specs::convert::FromSpecImpl<DocsRsUseCaseError> for DocsRsToolError {
    open spec fn obeys_from_spec() -> bool {
        true
    }

    open spec fn from_spec(error: DocsRsUseCaseError) -> Self {
        DocsRsToolError::UseCase(error)
    }
}

/// The message shown when no supported rustdoc JSON format exists for a
/// crate.
pub open spec fn format_unavailable_message(crate_name: Seq<char>, tried: Seq<u32>) -> Seq<char> {
    "Not found: docs.rs has no rustdoc JSON for "@ + crate_name
        + " at any format version this build understands (tried "@ + debug_u32_list(tried)
        + "). The crate may need to be rebuilt on docs.rs, or a newer mcp-rust-docs that supports the current format may be required."@
}

impl DocsRsToolError {
    /// The text shown to the model: caller mistakes are prefixed
    /// `Invalid request: `, missing pages and missing rustdoc JSON
    /// `Not found: `, everything else `Upstream failure: `.
    pub open spec fn tool_message_spec(&self, m: Seq<char>) -> bool {
        match self {
            DocsRsToolError::UseCase(DocsRsUseCaseError::InvalidInput(reason)) => m
                == "Invalid request: "@ + reason@,
            DocsRsToolError::UseCase(
                DocsRsUseCaseError::Repository(DocsRsRepositoryError::NotFound { url }),
            ) => m == "Not found: docs.rs returned 404 for "@ + url@,
            DocsRsToolError::UseCase(
                DocsRsUseCaseError::FormatVersionUnavailable { crate_name, tried },
            ) => m == format_unavailable_message(crate_name@, tried@),
            DocsRsToolError::UseCase(DocsRsUseCaseError::Repository(e)) => exists|t: Seq<char>|
                e.message_spec(t) && m == "Upstream failure: "@ + t,
            DocsRsToolError::UseCase(DocsRsUseCaseError::Internal(reason)) => m
                == "Upstream failure: "@ + reason@,
        }
    }

    /// Render the message of the error result.
    pub fn tool_message(&self) -> (m: String)
        ensures
            self.tool_message_spec(m@),
    {
        match self {
            DocsRsToolError::UseCase(DocsRsUseCaseError::InvalidInput(reason)) => {
                let mut m = owned("Invalid request: ");
                push_str(&mut m, reason.as_str());
                m
            },
            DocsRsToolError::UseCase(
                DocsRsUseCaseError::Repository(DocsRsRepositoryError::NotFound { url }),
            ) => {
                let mut m = owned("Not found: docs.rs returned 404 for ");
                push_str(&mut m, url.as_str());
                m
            },
            DocsRsToolError::UseCase(
                DocsRsUseCaseError::FormatVersionUnavailable { crate_name, tried },
            ) => {
                let mut m = owned("Not found: docs.rs has no rustdoc JSON for ");
                push_str(&mut m, crate_name.as_str());
                push_str(&mut m, " at any format version this build understands (tried ");
                push_u32_list(&mut m, tried);
                push_str(
                    &mut m,
                    "). The crate may need to be rebuilt on docs.rs, or a newer mcp-rust-docs that supports the current format may be required.",
                );
                m
            },
            DocsRsToolError::UseCase(DocsRsUseCaseError::Repository(e)) => {
                let t = e.message();
                let mut m = owned("Upstream failure: ");
                push_str(&mut m, t.as_str());
                m
            },
            DocsRsToolError::UseCase(DocsRsUseCaseError::Internal(reason)) => {
                let mut m = owned("Upstream failure: ");
                push_str(&mut m, reason.as_str());
                m
            },
        }
    }

    /// Convert into an error-flavored MCP tool result whose single text
    /// content is [`Self::tool_message`].
    pub fn into_tool_result(self) -> (r: rmcp::model::CallToolResult)
        ensures
            exists|m: Seq<char>| self.tool_message_spec(m) && r == error_result_of(m),
    {
        let message = self.tool_message();
        let ghost m = message@;
        let r = error_tool_result(message);
        assert(self.tool_message_spec(m) && r == error_result_of(m));
        r
    }
}

} // verus!
