//! docs.rs integration, split into the three standard layers.
//!
//! [`repository`] holds the shapes exchanged with docs.rs, [`use_case`]
//! validates input, assembles URLs and converts fetched HTML to
//! Markdown, and [`tool`] adapts the use case to MCP tool calls.

/// Repository layer: request/response shapes and errors of docs.rs.
pub mod repository;

/// Normalized crate-doc schema of rustdoc JSON.
pub mod schema;

/// Tool layer: request and response shapes and the rendering of errors
/// into MCP results.
pub mod tool;

/// Use case layer: input validation, URL assembly, HTML-to-Markdown
/// conversion.
pub mod use_case;
