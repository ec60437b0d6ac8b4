/// Tool-layer error type and its rendering into an MCP error result.
pub mod error;
/// Request types accepted by the MCP tools.
pub mod request;
/// Response types returned in tool output.
pub mod response;

pub use self::error::CratesIoToolError;
pub use self::request::SearchCratesRequest;
pub use self::response::{CrateSummaryDto, SearchCratesResponse};
