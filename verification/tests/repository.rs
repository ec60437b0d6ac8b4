use mcp_rust_docs::crates_io::repository::{
    crate_url, dependencies_url, dependency_kind_from_str, route_status, search_url, BoundedBody,
    RepositoryDependencyKind, StatusRoute, ERROR_BODY_CAP,
};
use mcp_rust_docs::upstream::HttpStatus;
use mcp_rust_docs::docs_rs::repository::{
    CachingDocsRsRepositoryConfig, DEFAULT_RUSTDOC_CACHE_CAPACITY, DEFAULT_RUSTDOC_CACHE_TTL_SECS,
};

#[test]
fn endpoint_urls() {
    assert_eq!(search_url("https://crates.io"), "https://crates.io/api/v1/crates");
    assert_eq!(crate_url("https://crates.io", "serde"), "https://crates.io/api/v1/crates/serde");
    assert_eq!(
        dependencies_url("https://crates.io", "tokio", "1.40.0"),
        "https://crates.io/api/v1/crates/tokio/1.40.0/dependencies"
    );
}

#[test]
fn dependency_kinds() {
    assert_eq!(dependency_kind_from_str("dev"), RepositoryDependencyKind::Dev);
    assert_eq!(dependency_kind_from_str("build"), RepositoryDependencyKind::Build);
    assert_eq!(dependency_kind_from_str("normal"), RepositoryDependencyKind::Normal);
    assert_eq!(dependency_kind_from_str("future-kind"), RepositoryDependencyKind::Normal);
    assert_eq!(dependency_kind_from_str("Dev"), RepositoryDependencyKind::Normal);
}

fn status(code: u16) -> HttpStatus {
    HttpStatus::from_code(code).expect("valid status")
}

#[test]
fn status_routing() {
    assert_eq!(route_status(status(404)), StatusRoute::NotFound);
    assert_eq!(route_status(status(200)), StatusRoute::Success);
    assert_eq!(route_status(status(204)), StatusRoute::Success);
    assert_eq!(route_status(status(299)), StatusRoute::Success);
    assert_eq!(route_status(status(300)), StatusRoute::Failure);
    assert_eq!(route_status(status(502)), StatusRoute::Failure);
    assert_eq!(route_status(status(101)), StatusRoute::Failure);
}

#[test]
fn status_codes_are_three_digits() {
    assert!(HttpStatus::from_code(99).is_none());
    assert!(HttpStatus::from_code(1000).is_none());
    assert_eq!(status(100).code(), 100);
    assert_eq!(status(999).code(), 999);
}

#[test]
fn bounded_body_accepts_up_to_the_cap() {
    let mut body = BoundedBody::new(8);
    assert_eq!(body.limit(), 8);
    assert!(body.push_chunk(b"abcd"));
    assert!(body.push_chunk(b"efgh"));
    assert!(!body.push_chunk(b"i"));
    assert!(body.push_chunk(b""));
    assert_eq!(body.into_bytes(), b"abcdefgh".to_vec());
}

#[test]
fn bounded_body_refuses_oversized_chunk_without_keeping_it() {
    let mut body = BoundedBody::new(64);
    assert!(!body.push_chunk(&[0u8; 1024]));
    assert!(body.push_chunk(b"ok"));
    assert_eq!(body.into_bytes(), b"ok".to_vec());
    assert_eq!(ERROR_BODY_CAP, 16 * 1024);
}

#[test]
fn cache_defaults() {
    let c = CachingDocsRsRepositoryConfig::default();
    assert_eq!(c.max_entries, DEFAULT_RUSTDOC_CACHE_CAPACITY);
    assert_eq!(c.ttl, std::time::Duration::from_secs(DEFAULT_RUSTDOC_CACHE_TTL_SECS));
    assert_eq!(DEFAULT_RUSTDOC_CACHE_CAPACITY, 16);
    assert_eq!(DEFAULT_RUSTDOC_CACHE_TTL_SECS, 600);
}
