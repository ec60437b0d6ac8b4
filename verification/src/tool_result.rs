//! The MCP tool results that error renderings end up in.

use vstd::prelude::*;

verus! {

#[verifier::external_type_specification]
#[verifier::external_body]
pub struct ExCallToolResult(rmcp::model::CallToolResult);

/// The error result that `CallToolResult::error` builds around a single
/// text content `ContentBlock::text(message)`.
pub uninterp spec fn error_result_of(message: Seq<char>) -> rmcp::model::CallToolResult;

/// `rmcp::model::CallToolResult::error` with a single text content
/// (`ContentBlock::text(message)`). The rmcp source builds the result
/// from the message alone (`is_error: Some(true)`, the content, every
/// other field fixed), so it is named as a function of the message; the
/// result type is opaque here, so nothing more is stated of it.
#[verifier::external_body]
pub(crate) fn error_tool_result(message: String) -> (r: rmcp::model::CallToolResult)
    ensures
        r == error_result_of(message@),
{
    rmcp::model::CallToolResult::error(vec![rmcp::model::ContentBlock::text(message)])
}

} // verus!
