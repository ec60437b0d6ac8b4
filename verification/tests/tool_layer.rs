use rmcp::model::{CallToolResult, ContentBlock};
use mcp_rust_docs::upstream::HttpStatus;
use std::collections::BTreeMap;

use mcp_rust_docs::crates_io::repository::CratesIoRepositoryError;
use mcp_rust_docs::crates_io::tool::{CratesIoToolError, SearchCratesRequest, SearchCratesResponse};
use mcp_rust_docs::crates_io::use_case::{
    CrateMetadata, CrateSummary, CrateVersion, CratesIoUseCaseError, DependencyEntry,
    DependencySummary, SearchCratesUseCaseInput, SearchCratesUseCaseOutput,
};
use mcp_rust_docs::docs_rs::repository::DocsRsRepositoryError;
use mcp_rust_docs::docs_rs::tool::{
    DocsRsToolError, GetCrateDocsRequest, GetCrateDocsResponse, SearchCrateDocsResponse,
    SearchCrateSymbolsRequest, SearchCrateSymbolsResponse,
};
use mcp_rust_docs::docs_rs::use_case::{
    DocHit, DocsRsUseCaseError, FetchCrateDocsUseCaseInput, FetchCrateDocsUseCaseOutput,
    SearchCrateDocsUseCaseOutput, SearchCrateSymbolsUseCaseInput, SearchCrateSymbolsUseCaseOutput,
    SymbolEntry,
};
use mcp_rust_docs::SearchCratesArgs;

fn docs_message(e: DocsRsUseCaseError) -> String {
    DocsRsToolError::from(e).tool_message()
}

fn crates_message(e: CratesIoUseCaseError) -> String {
    CratesIoToolError::from(e).tool_message()
}

#[test]
fn docs_invalid_input_is_an_invalid_request() {
    assert_eq!(
        docs_message(DocsRsUseCaseError::InvalidInput("bad path".into())),
        "Invalid request: bad path"
    );
}

#[test]
fn docs_404_is_not_found() {
    assert_eq!(
        docs_message(DocsRsUseCaseError::Repository(DocsRsRepositoryError::NotFound {
            url: "https://docs.rs/x/latest/x/".into()
        })),
        "Not found: docs.rs returned 404 for https://docs.rs/x/latest/x/"
    );
}

#[test]
fn docs_missing_format_is_not_found() {
    assert_eq!(
        docs_message(DocsRsUseCaseError::FormatVersionUnavailable {
            crate_name: "anyhow".into(),
            tried: vec![57, 56],
        }),
        "Not found: docs.rs has no rustdoc JSON for anyhow at any format version this build understands (tried [57, 56]). The crate may need to be rebuilt on docs.rs, or a newer mcp-rust-docs that supports the current format may be required."
    );
}

#[test]
fn docs_upstream_status_is_an_upstream_failure() {
    assert_eq!(
        docs_message(DocsRsUseCaseError::Repository(DocsRsRepositoryError::UpstreamStatus {
            status: HttpStatus::from_code(502).unwrap(),
            url: "https://docs.rs/x/".into(),
            body: "ignored".into(),
        })),
        "Upstream failure: docs.rs returned HTTP 502 Bad Gateway for https://docs.rs/x/"
    );
}

#[test]
fn docs_payload_and_format_errors_render_their_numbers() {
    assert_eq!(
        docs_message(DocsRsUseCaseError::Repository(DocsRsRepositoryError::PayloadTooLarge {
            url: "u".into(),
            limit_bytes: 1024,
        })),
        "Upstream failure: docs.rs rustdoc JSON for u exceeds 1024-byte cap"
    );
    assert_eq!(
        docs_message(DocsRsUseCaseError::Repository(
            DocsRsRepositoryError::FormatVersionUnsupported {
                url: "u".into(),
                actual: 99999999,
                supported: vec![57],
            }
        )),
        "Upstream failure: rustdoc JSON from u has format_version 99999999, but this build of mcp-rust-docs only supports [57]"
    );
    assert_eq!(
        docs_message(DocsRsUseCaseError::Internal("boom".into())),
        "Upstream failure: boom"
    );
}

#[test]
fn docs_wrapped_source_errors_keep_their_prefix() {
    let json = serde_json::from_str::<u8>("x").unwrap_err();
    let m = docs_message(DocsRsUseCaseError::Repository(DocsRsRepositoryError::InvalidRustdocJson {
        url: "u".into(),
        source: json,
    }));
    assert!(m.starts_with("Upstream failure: failed to parse rustdoc JSON from u: "), "{m}");
    let io = std::io::Error::new(std::io::ErrorKind::InvalidData, "bad frame");
    let m = docs_message(DocsRsUseCaseError::Repository(DocsRsRepositoryError::Decompression {
        url: "u".into(),
        source: io,
    }));
    assert_eq!(m, "Upstream failure: failed to decompress rustdoc JSON from u: bad frame");
}

#[test]
fn crates_errors_split_invalid_from_upstream() {
    assert_eq!(
        crates_message(CratesIoUseCaseError::InvalidQuery("query must not be empty".into())),
        "Invalid request: query must not be empty"
    );
    assert_eq!(
        crates_message(CratesIoUseCaseError::InconsistentUpstream("odd".into())),
        "Upstream failure: odd"
    );
    assert_eq!(
        crates_message(CratesIoUseCaseError::Repository(CratesIoRepositoryError::UpstreamStatus {
            status: HttpStatus::from_code(503).unwrap(),
            url: "https://crates.io/api/v1/crates".into(),
            body: "temporarily unavailable".into(),
        })),
        "Upstream failure: crates.io returned HTTP 503 Service Unavailable: temporarily unavailable"
    );
    assert_eq!(
        crates_message(CratesIoUseCaseError::Repository(CratesIoRepositoryError::NotFound {
            url: "https://crates.io/api/v1/crates/x".into(),
        })),
        "Upstream failure: crates.io returned 404 for https://crates.io/api/v1/crates/x"
    );
    assert_eq!(
        crates_message(CratesIoUseCaseError::Repository(CratesIoRepositoryError::PayloadTooLarge {
            url: "u".into(),
            limit_bytes: 64,
        })),
        "Upstream failure: crates.io response from u exceeds 64-byte cap"
    );
    let json = serde_json::from_str::<u8>("x").unwrap_err();
    let m = crates_message(CratesIoUseCaseError::Repository(CratesIoRepositoryError::InvalidResponse(json)));
    assert!(m.starts_with("Upstream failure: failed to decode crates.io response: "), "{m}");
}

#[test]
fn crates_use_case_error_display() {
    assert_eq!(
        CratesIoUseCaseError::InvalidQuery("x".into()).message(),
        "invalid request: x"
    );
    assert_eq!(
        CratesIoUseCaseError::InconsistentUpstream("y".into()).message(),
        "inconsistent upstream response: y"
    );
}

#[test]
fn tool_results_are_errors() {
    let r = DocsRsToolError::from(DocsRsUseCaseError::InvalidInput("x".into())).into_tool_result();
    assert_eq!(r.is_error, Some(true));
    assert_eq!(r, CallToolResult::error(vec![ContentBlock::text("Invalid request: x")]));
    let r = CratesIoToolError::from(CratesIoUseCaseError::InvalidQuery("x".into())).into_tool_result();
    assert_eq!(r.is_error, Some(true));
    assert_eq!(r, CallToolResult::error(vec![ContentBlock::text("Invalid request: x")]));
}

#[test]
fn requests_convert_field_for_field() {
    let input = FetchCrateDocsUseCaseInput::from(GetCrateDocsRequest {
        crate_name: "tokio".into(),
        version: Some("1".into()),
        path: None,
    });
    assert_eq!(input.crate_name, "tokio");
    assert_eq!(input.version.as_deref(), Some("1"));
    assert!(input.path.is_none());
    let input = SearchCrateSymbolsUseCaseInput::from(SearchCrateSymbolsRequest {
        crate_name: "serde".into(),
        version: None,
        query: Some("De".into()),
        kinds: Some(vec!["trait".into()]),
        limit: Some(5),
    });
    assert_eq!(input.crate_name, "serde");
    assert_eq!(input.query.as_deref(), Some("De"));
    assert_eq!(input.kinds, Some(vec!["trait".to_string()]));
    assert_eq!(input.limit, Some(5));
    let input = SearchCratesUseCaseInput::from(SearchCratesRequest {
        query: "q".into(),
        per_page: Some(3),
        page: Some(2),
    });
    assert_eq!((input.query.as_str(), input.per_page, input.page), ("q", Some(3), Some(2)));
    let input = SearchCratesUseCaseInput::from(SearchCratesArgs {
        query: "r".into(),
        per_page: None,
        page: Some(9),
    });
    assert_eq!((input.query.as_str(), input.per_page, input.page), ("r", None, Some(9)));
}

fn docs_output() -> FetchCrateDocsUseCaseOutput {
    FetchCrateDocsUseCaseOutput {
        crate_name: "tokio".into(),
        resolved_version: Some("1.40.0".into()),
        final_url: "https://docs.rs/tokio/1.40.0/tokio/".into(),
        markdown: "# tokio".into(),
    }
}

fn crate_metadata() -> CrateMetadata {
    let mut features = BTreeMap::new();
    features.insert("full".to_string(), vec!["macros".to_string()]);
    CrateMetadata {
        crate_name: "tokio".into(),
        resolved_version: "1.40.0".into(),
        resolved_version_yanked: false,
        versions: vec![CrateVersion {
            num: "1.40.0".into(),
            yanked: false,
            created_at: "2025-01-01T00:00:00Z".into(),
        }],
        versions_truncated: false,
        features,
        dependencies: DependencySummary {
            runtime_count: 1,
            dev_count: 1,
            build_count: 0,
            optional_count: 0,
            runtime: vec![DependencyEntry {
                name: "bytes".into(),
                version_req: "^1.0".into(),
                optional: false,
            }],
            runtime_truncated: false,
        },
    }
}

#[test]
fn docs_only_response_has_no_metadata() {
    let r = GetCrateDocsResponse::from_docs_only(docs_output());
    assert_eq!(r.crate_name, "tokio");
    assert_eq!(r.url, "https://docs.rs/tokio/1.40.0/tokio/");
    assert_eq!(r.resolved_version.as_deref(), Some("1.40.0"));
    assert_eq!(r.markdown, "# tokio");
    assert!(r.metadata.is_none() && r.metadata_error.is_none());
}

#[test]
fn metadata_success_populates_metadata() {
    let r = GetCrateDocsResponse::from_docs_and_metadata(docs_output(), Ok(crate_metadata()));
    assert!(r.metadata_error.is_none());
    let m = r.metadata.expect("metadata");
    assert_eq!(m.crate_name, "tokio");
    assert_eq!(m.resolved_version, "1.40.0");
    assert_eq!(m.versions.len(), 1);
    assert_eq!(m.versions[0].created_at, "2025-01-01T00:00:00Z");
    assert_eq!(m.features.get("full"), Some(&vec!["macros".to_string()]));
    assert_eq!(m.dependencies.runtime_count, 1);
    assert_eq!(m.dependencies.dev_count, 1);
    assert_eq!(m.dependencies.runtime[0].name, "bytes");
    assert_eq!(m.dependencies.runtime[0].version_req, "^1.0");
}

#[test]
fn metadata_failure_populates_metadata_error() {
    let r = GetCrateDocsResponse::from_docs_and_metadata(docs_output(), Err("503 cause".into()));
    assert!(r.metadata.is_none());
    assert_eq!(r.metadata_error.as_deref(), Some("503 cause"));
    assert_eq!(r.markdown, "# tokio");
}

#[test]
fn search_responses_keep_order() {
    let out = SearchCrateSymbolsUseCaseOutput {
        crate_name: "serde".into(),
        resolved_version: None,
        total_matched: 3,
        truncated: true,
        items: vec![
            SymbolEntry { kind: "struct".into(), name: "a::A".into(), path: "a/struct.A.html".into() },
            SymbolEntry { kind: "trait".into(), name: "B".into(), path: "trait.B.html".into() },
        ],
    };
    let r = SearchCrateSymbolsResponse::from_output(out);
    assert_eq!(r.total_matched, 3);
    assert!(r.truncated);
    assert_eq!(r.items.len(), 2);
    assert_eq!(r.items[0].path, "a/struct.A.html");
    assert_eq!(r.items[1].kind, "trait");

    let out = SearchCrateDocsUseCaseOutput {
        crate_name: "anyhow".into(),
        resolved_version: Some("1.0.86".into()),
        total_matched: 1,
        truncated: false,
        items: vec![DocHit {
            kind: "macro".into(),
            name: "bail".into(),
            path: "macro.bail.html".into(),
            snippet: "…error…".into(),
        }],
    };
    let r = SearchCrateDocsResponse::from_output(out);
    assert_eq!(r.resolved_version.as_deref(), Some("1.0.86"));
    assert_eq!(r.items[0].snippet, "…error…");

    let out = SearchCratesUseCaseOutput {
        total: 42,
        page: 2,
        per_page: 5,
        crates: vec![CrateSummary {
            name: "tokio".into(),
            version: "1.40.0".into(),
            description: None,
            downloads: 500000000,
            recent_downloads: None,
            documentation: None,
            homepage: Some("https://tokio.rs".into()),
            repository: None,
            updated_at: "t".into(),
        }],
    };
    let r = SearchCratesResponse::from_output(out);
    assert_eq!((r.total, r.page, r.per_page), (42, 2, 5));
    assert_eq!(r.crates[0].homepage.as_deref(), Some("https://tokio.rs"));
    assert_eq!(r.crates[0].downloads, 500000000);
}
