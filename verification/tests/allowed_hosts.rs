use mcp_rust_docs::vercel::{allowed_hosts, allowlist_of};

fn env_from<'a>(pairs: &'a [(&'a str, &'a str)]) -> impl Fn(&str) -> Option<String> + 'a {
    move |key| {
        pairs
            .iter()
            .find(|(k, _)| *k == key)
            .map(|(_, v)| (*v).to_string())
    }
}

#[test]
fn defaults_to_loopback_only_without_vercel_env() {
    let hosts = allowed_hosts(&env_from(&[]));
    assert_eq!(hosts, ["127.0.0.1", "::1", "localhost"]);
}

#[test]
fn folds_in_vercel_system_urls() {
    let hosts = allowed_hosts(&env_from(&[
        ("VERCEL_URL", "app-abc123.vercel.app"),
        ("VERCEL_PROJECT_PRODUCTION_URL", "app.vercel.app"),
    ]));
    assert!(hosts.contains(&"app-abc123.vercel.app".to_string()));
    assert!(hosts.contains(&"app.vercel.app".to_string()));
}

#[test]
fn splits_and_trims_mcp_allowed_hosts() {
    let hosts = allowed_hosts(&env_from(&[(
        "MCP_ALLOWED_HOSTS",
        "docs.example.com , api.example.com,,",
    )]));
    assert!(hosts.contains(&"docs.example.com".to_string()));
    assert!(hosts.contains(&"api.example.com".to_string()));
    assert!(!hosts.contains(&"".to_string()));
}

#[test]
fn deduplicates_overlapping_sources() {
    let hosts = allowed_hosts(&env_from(&[
        ("VERCEL_URL", "app.vercel.app"),
        ("MCP_ALLOWED_HOSTS", "app.vercel.app"),
    ]));
    assert_eq!(
        hosts
            .iter()
            .filter(|host| *host == "app.vercel.app")
            .count(),
        1
    );
}

#[test]
fn allowlist_is_sorted_and_complete() {
    let hosts = allowed_hosts(&env_from(&[
        ("VERCEL_URL", "zeta.vercel.app"),
        ("VERCEL_BRANCH_URL", "beta.vercel.app"),
        ("VERCEL_PROJECT_PRODUCTION_URL", "alpha.vercel.app"),
        ("MCP_ALLOWED_HOSTS", "  docs.example.com\t,localhost, ,zeta.vercel.app"),
    ]));
    assert_eq!(
        hosts,
        [
            "127.0.0.1",
            "::1",
            "alpha.vercel.app",
            "beta.vercel.app",
            "docs.example.com",
            "localhost",
            "zeta.vercel.app",
        ]
    );
}

#[test]
fn allowlist_orders_like_string_ord() {
    let hosts = allowlist_of(
        Some("b.example".to_string()),
        None,
        None,
        Some("B.example,é.example,a,ab,abc,".to_string()),
    );
    let mut expected: Vec<String> = [
        "localhost",
        "127.0.0.1",
        "::1",
        "b.example",
        "B.example",
        "é.example",
        "a",
        "ab",
        "abc",
    ]
    .iter()
    .map(|s| s.to_string())
    .collect();
    expected.sort();
    expected.dedup();
    assert_eq!(hosts, expected);
}

#[test]
fn allowlist_keeps_deployment_urls_verbatim() {
    let hosts = allowlist_of(Some(" spaced.vercel.app ".to_string()), None, None, None);
    assert!(hosts.contains(&" spaced.vercel.app ".to_string()));
}

#[test]
fn allowlist_with_only_separators_adds_nothing() {
    let hosts = allowlist_of(None, None, None, Some(" , ,,".to_string()));
    assert_eq!(hosts, ["127.0.0.1", "::1", "localhost"]);
}
