use std::time::Duration;

#[test]
fn default_http_timeout_is_set_and_reasonable() {
    let timeout = Duration::from_secs(mcp_rust_docs::router::DEFAULT_HTTP_TIMEOUT_SECS);
    assert!(timeout > Duration::from_secs(0));
    assert!(timeout < Duration::from_secs(120));

    let connect = Duration::from_secs(mcp_rust_docs::router::DEFAULT_HTTP_CONNECT_TIMEOUT_SECS);
    assert!(connect > Duration::from_secs(0));
    assert!(connect <= timeout);
}

#[test]
fn default_upstream_body_size_limit_is_set_and_reasonable() {
    let limit = mcp_rust_docs::router::DEFAULT_UPSTREAM_BODY_BYTES;
    assert!(limit >= 64 * 1024 * 1024);
    assert!(limit <= 512 * 1024 * 1024);
}

#[test]
fn default_upstreams_are_the_public_hosts() {
    assert_eq!(mcp_rust_docs::CRATES_IO_BASE_URL, "https://crates.io");
    assert_eq!(mcp_rust_docs::DOCS_RS_BASE_URL, "https://docs.rs");
    assert!(mcp_rust_docs::DEFAULT_USER_AGENT.starts_with("mcp-rust-docs/"));
}
