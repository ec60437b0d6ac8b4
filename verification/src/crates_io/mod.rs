//! crates.io integration, split into the three standard layers.
//!
//! [`repository`] owns the shapes exchanged with the registry and the
//! decisions taken around each HTTP exchange, [`use_case`] applies
//! validation and clamping, and [`tool`] adapts the use case to MCP tool
//! calls with wire DTOs.

/// Repository layer: request/response shapes of the crates.io v1 API and
/// the URL, status and body-size rules applied to each exchange.
pub mod repository;

/// Tool layer: request/response DTOs and the rendering of failures.
pub mod tool;

/// Use case layer: query validation, ceiling enforcement, and the
/// transformation from raw repository records into domain summaries.
pub mod use_case;
