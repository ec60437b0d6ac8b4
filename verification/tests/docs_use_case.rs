use mcp_rust_docs::docs_rs::tool::root_metadata_request;
use mcp_rust_docs::docs_rs::repository::{DocsRsRepositoryError, FetchCrateDocsRepositoryOutput};
use mcp_rust_docs::docs_rs::use_case::{
    build_url, extract_main_content, finish_fetch_crate_docs, html_to_markdown,
    parse_version_from_url, prepare_fetch_crate_docs, validate_crate_name, validate_path,
    validate_version, DocsRsUseCaseError, FetchCrateDocsUseCaseInput,
};

const BASE_URL: &str = "https://docs.rs";

fn input(crate_name: &str, version: Option<&str>, path: Option<&str>) -> FetchCrateDocsUseCaseInput {
    FetchCrateDocsUseCaseInput {
        crate_name: crate_name.to_string(),
        version: version.map(|v| v.to_string()),
        path: path.map(|p| p.to_string()),
    }
}

fn invalid_input(result: Result<(String, mcp_rust_docs::docs_rs::repository::FetchCrateDocsRepositoryInput), DocsRsUseCaseError>) -> String {
    match result {
        Err(DocsRsUseCaseError::InvalidInput(message)) => message,
        Err(other) => panic!("expected InvalidInput, got {other:?}"),
        Ok((name, request)) => panic!("expected validation error, got {name} {}", request.url),
    }
}

#[test]
fn fetch_defaults_version_to_latest_and_omits_path() {
    let (name, request) =
        prepare_fetch_crate_docs(BASE_URL, &input(" tokio ", None, None)).expect("valid input");
    assert_eq!(request.url, "https://docs.rs/tokio/latest/tokio/");
    let out = finish_fetch_crate_docs(
        BASE_URL,
        name,
        FetchCrateDocsRepositoryOutput {
            final_url: "https://docs.rs/tokio/1.40.0/tokio/".into(),
            html: "<main><h1>tokio</h1></main>".into(),
        },
    );
    assert_eq!(out.crate_name, "tokio");
    assert_eq!(out.resolved_version.as_deref(), Some("1.40.0"));
    assert!(out.markdown.contains("tokio"));
}

#[test]
fn fetch_translates_hyphens_to_underscores_in_lib_name() {
    let (_, request) = prepare_fetch_crate_docs(BASE_URL, &input("tokio-util", Some("0.7.10"), None))
        .expect("valid input");
    assert_eq!(request.url, "https://docs.rs/tokio-util/0.7.10/tokio_util/");
}

#[test]
fn fetch_appends_path_tail() {
    let (_, request) = prepare_fetch_crate_docs(
        BASE_URL,
        &input("tokio", None, Some("task/struct.JoinHandle.html")),
    )
    .expect("valid input");
    assert_eq!(
        request.url,
        "https://docs.rs/tokio/latest/tokio/task/struct.JoinHandle.html"
    );
}

#[test]
fn fetch_rejects_empty_crate_name() {
    let result = prepare_fetch_crate_docs(BASE_URL, &input("  ", None, None));
    assert!(matches!(result, Err(DocsRsUseCaseError::InvalidInput(_))));
}

#[test]
fn fetch_rejects_crate_name_with_path_separator() {
    let result = prepare_fetch_crate_docs(BASE_URL, &input("../etc/passwd", None, None));
    assert!(matches!(result, Err(DocsRsUseCaseError::InvalidInput(_))));
}

#[test]
fn fetch_rejects_path_with_parent_traversal() {
    let result = prepare_fetch_crate_docs(BASE_URL, &input("tokio", None, Some("../../etc/passwd")));
    assert!(matches!(result, Err(DocsRsUseCaseError::InvalidInput(_))));
}

#[test]
fn fetch_lowercases_crate_name_for_url() {
    let (name, request) =
        prepare_fetch_crate_docs(BASE_URL, &input("Tokio", None, None)).expect("valid input");
    let out = finish_fetch_crate_docs(
        BASE_URL,
        name,
        FetchCrateDocsRepositoryOutput {
            final_url: "https://docs.rs/tokio/latest/tokio/".into(),
            html: String::new(),
        },
    );
    assert_eq!(out.crate_name, "tokio");
    assert_eq!(request.url, "https://docs.rs/tokio/latest/tokio/");
}

#[test]
fn fetch_rejects_overlong_crate_name() {
    let result = prepare_fetch_crate_docs(BASE_URL, &input(&"a".repeat(65), None, None));
    assert!(matches!(result, Err(DocsRsUseCaseError::InvalidInput(_))));
}

#[test]
fn fetch_rejects_version_with_query_or_fragment() {
    for bad in ["latest?x=1", "latest#frag", "1.0\\0", "1 0"] {
        let result = prepare_fetch_crate_docs(BASE_URL, &input("tokio", Some(bad), None));
        assert!(
            matches!(result, Err(DocsRsUseCaseError::InvalidInput(_))),
            "expected InvalidInput for version {bad:?}, got {result:?}",
        );
    }
}

#[test]
fn fetch_rejects_path_with_backslash_or_double_slash() {
    for bad in ["foo\\bar", "foo//bar", "task/%2e%2e/x", "%2fmod/x"] {
        let result = prepare_fetch_crate_docs(BASE_URL, &input("tokio", None, Some(bad)));
        assert!(
            matches!(result, Err(DocsRsUseCaseError::InvalidInput(_))),
            "expected InvalidInput for path {bad:?}, got {result:?}",
        );
    }
}

#[test]
fn fetch_rejects_absolute_path() {
    let result = prepare_fetch_crate_docs(BASE_URL, &input("tokio", None, Some("/etc/passwd")));
    assert!(matches!(result, Err(DocsRsUseCaseError::InvalidInput(_))));
}

#[test]
fn fetch_bubbles_not_found_from_repository() {
    let (_, request) = prepare_fetch_crate_docs(BASE_URL, &input("nonexistent-crate-zzz", None, None))
        .expect("valid input");
    assert_eq!(
        request.url,
        "https://docs.rs/nonexistent-crate-zzz/latest/nonexistent_crate_zzz/"
    );
    let err = DocsRsUseCaseError::from(DocsRsRepositoryError::NotFound { url: request.url });
    assert!(matches!(
        err,
        DocsRsUseCaseError::Repository(DocsRsRepositoryError::NotFound { .. })
    ));
}

#[test]
fn html_to_markdown_strips_tags() {
    let md = html_to_markdown("<h1>Hello</h1><p>world <strong>here</strong></p>");
    assert!(md.contains("Hello"), "expected heading in markdown: {md:?}");
    assert!(md.contains("world"), "expected paragraph text: {md:?}");
    assert!(
        !md.contains("<h1>") && !md.contains("<strong>"),
        "html tags should be stripped: {md:?}",
    );
}

#[test]
fn extract_main_drops_surrounding_chrome() {
    let html = r#"<html><body>
            <nav>SIDEBAR LINKS</nav>
            <main><p>Body content</p></main>
            <footer>FOOTER LINKS</footer>
        </body></html>"#;
    let extracted = extract_main_content(html);
    assert!(extracted.contains("Body content"));
    assert!(
        !extracted.contains("SIDEBAR") && !extracted.contains("FOOTER"),
        "chrome leaked into extracted slice: {extracted}",
    );
}

#[test]
fn extract_main_falls_back_to_full_html_without_marker() {
    let html = "<div>no main here</div>";
    assert_eq!(extract_main_content(html), html);
}

#[test]
fn parse_version_handles_redirected_latest() {
    let v = parse_version_from_url(
        BASE_URL,
        "tokio",
        "https://docs.rs/tokio/1.40.0/tokio/index.html",
    );
    assert_eq!(v.as_deref(), Some("1.40.0"));
}

#[test]
fn parse_version_returns_none_for_unexpected_shape() {
    let v = parse_version_from_url(BASE_URL, "tokio", "https://docs.rs/about");
    assert_eq!(v, None);
}

#[test]
fn extract_main_is_exact_slice_with_attributes() {
    let html = "<p>x</p><main id=\"m\">A</main><main>B</main>";
    assert_eq!(extract_main_content(html), "<main id=\"m\">A</main>");
}

#[test]
fn extract_main_without_close_returns_whole_page() {
    let html = "<main>unterminated";
    assert_eq!(extract_main_content(html), html);
}

#[test]
fn parse_version_tolerates_trailing_slash_on_base() {
    let v = parse_version_from_url("https://docs.rs//", "serde", "https://docs.rs/serde/1.0.200");
    assert_eq!(v.as_deref(), Some("1.0.200"));
}

#[test]
fn parse_version_rejects_empty_segment() {
    let v = parse_version_from_url(BASE_URL, "tokio", "https://docs.rs/tokio//tokio/");
    assert_eq!(v, None);
}

#[test]
fn parse_version_reads_back_built_url() {
    let url = build_url(BASE_URL, "tokio-util", "0.7.10", Some("sync/index.html"));
    assert_eq!(url, "https://docs.rs/tokio-util/0.7.10/tokio_util/sync/index.html");
    let v = parse_version_from_url(BASE_URL, "tokio-util", &url);
    assert_eq!(v.as_deref(), Some("0.7.10"));
}

#[test]
fn build_url_strips_trailing_slashes_of_base() {
    assert_eq!(
        build_url("http://127.0.0.1:9/", "serde", "latest", None),
        "http://127.0.0.1:9/serde/latest/serde/"
    );
}

#[test]
fn crate_name_errors_name_the_problem() {
    let m = invalid_input(prepare_fetch_crate_docs(BASE_URL, &input("  ", None, None)));
    assert_eq!(m, "crate name must not be empty");
    let m = invalid_input(prepare_fetch_crate_docs(BASE_URL, &input(&"a".repeat(65), None, None)));
    assert_eq!(m, "crate name longer than 64 characters");
    let m = invalid_input(prepare_fetch_crate_docs(BASE_URL, &input("a/b", None, None)));
    assert_eq!(m, "crate name contains disallowed characters: \"a/b\"");
}

#[test]
fn version_errors_name_the_problem() {
    assert!(matches!(validate_version("1.0.0"), Ok(v) if v == "1.0.0"));
    let cases = [
        ("1/2", "version must not contain '/'"),
        ("1\\2", "version must not contain '\\\\'"),
        ("1?2", "version must not contain '?'"),
        ("1#2", "version must not contain '#'"),
        ("1..2", "version must not contain `..`"),
        ("1 2", "version must not contain whitespace or control characters"),
    ];
    for (bad, expected) in cases {
        match validate_version(bad) {
            Err(DocsRsUseCaseError::InvalidInput(m)) => assert_eq!(m, expected, "for {bad:?}"),
            other => panic!("expected InvalidInput for {bad:?}, got {other:?}"),
        }
    }
    match validate_version(&"1".repeat(65)) {
        Err(DocsRsUseCaseError::InvalidInput(m)) => {
            assert_eq!(m, "version longer than 64 characters")
        }
        other => panic!("expected InvalidInput, got {other:?}"),
    }
}

#[test]
fn path_errors_name_the_problem() {
    assert!(matches!(validate_path("a/..b/c.html"), Ok(p) if p == "a/..b/c.html"));
    let cases = [
        ("/abs", "path must be relative (no leading `/`)"),
        ("a\\b", "path must not contain backslashes"),
        ("a\u{7}b", "path must not contain control characters"),
        ("a?b", "path must not contain `?` or `#` (no query or fragment)"),
        ("a//b", "path must not contain empty segments (`//`)"),
        ("a/../b", "path must not contain `..` segments or their URL-encoded equivalents"),
        ("a/%5C/b", "path must not contain `..` segments or their URL-encoded equivalents"),
    ];
    for (bad, expected) in cases {
        match validate_path(bad) {
            Err(DocsRsUseCaseError::InvalidInput(m)) => assert_eq!(m, expected, "for {bad:?}"),
            other => panic!("expected InvalidInput for {bad:?}, got {other:?}"),
        }
    }
    match validate_path(&"a".repeat(257)) {
        Err(DocsRsUseCaseError::InvalidInput(m)) => assert_eq!(m, "path longer than 256 characters"),
        other => panic!("expected InvalidInput, got {other:?}"),
    }
}

#[test]
fn validate_crate_name_lowercases() {
    assert!(matches!(validate_crate_name("Serde_JSON-x"), Ok(n) if n == "serde_json-x"));
}

#[test]
fn blank_version_and_path_fall_back_to_defaults() {
    let (_, request) = prepare_fetch_crate_docs(BASE_URL, &input("serde", Some("  "), Some(" ")))
        .expect("valid input");
    assert_eq!(request.url, "https://docs.rs/serde/latest/serde/");
}

#[test]
fn validated_request_reads_back_its_version() {
    for (version, expected) in [(None, "latest"), (Some(" 1.2.3 "), "1.2.3"), (Some("^1"), "^1")] {
        let (name, request) =
            prepare_fetch_crate_docs(BASE_URL, &input("Serde-JSON", version, Some("de/index.html")))
                .expect("valid input");
        assert_eq!(name, "serde-json");
        let v = parse_version_from_url(BASE_URL, &name, &request.url);
        assert_eq!(v.as_deref(), Some(expected));
    }
}

#[test]
fn root_calls_carry_a_metadata_request() {
    let m = root_metadata_request(&input("tokio", Some("1.40.0"), None)).expect("root call");
    assert_eq!(m.crate_name, "tokio");
    assert_eq!(m.version.as_deref(), Some("1.40.0"));
    let m = root_metadata_request(&input(" tokio ", None, Some("  "))).expect("blank path is root");
    assert_eq!(m.crate_name, " tokio ");
    assert!(m.version.is_none());
    assert!(root_metadata_request(&input("tokio", None, Some("task/index.html"))).is_none());
}
