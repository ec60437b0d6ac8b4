/// Tool-layer error type and its rendering into an MCP error result.
pub mod error;
/// Request types accepted by the MCP tools.
pub mod request;
/// Response types returned in tool output.
pub mod response;

pub use self::error::DocsRsToolError;
pub use self::request::{root_metadata_request, GetCrateDocsRequest, SearchCrateSymbolsRequest};
pub use self::response::{
    entry_dto_of, hit_dto_of, metadata_dto_matches, summary_dto_matches, symbol_dto_of,
    version_dto_of, CrateVersionDto, DependencyEntryDto, DependencySummaryDto, DocHitDto,
    GetCrateDocsResponse, MetadataDto, SearchCrateDocsResponse, SearchCrateSymbolsResponse,
    SymbolDto,
};
