use mcp_rust_docs::upstream::HttpStatus;
use std::collections::BTreeMap;

use mcp_rust_docs::crates_io::repository::{
    CratesIoRepositoryError, FetchCrateRepositoryOutput,
    FetchCrateVersionDependenciesRepositoryOutput, RepositoryCrateRecord, RepositoryCrateVersion,
    RepositoryDependency, RepositoryDependencyKind, SearchCratesRepositoryOutput,
};
use mcp_rust_docs::crates_io::use_case::{
    complete_crate_metadata, into_summary, into_use_case_output, prepare_crate_metadata,
    prepare_search_crates, resolve_crate_metadata, resolve_metadata_version,
    summarize_dependencies, CrateMetadata, CratesIoUseCaseError, GetCrateMetadataUseCaseInput,
    SearchCratesUseCaseInput, SearchCratesUseCaseOutput, RUNTIME_DEPS_CAP, VERSIONS_CAP,
};

fn record() -> RepositoryCrateRecord {
    RepositoryCrateRecord {
        name: "tokio".into(),
        max_version: "1.40.0".into(),
        max_stable_version: Some("1.40.0".into()),
        description: Some("Async runtime".into()),
        downloads: 1,
        recent_downloads: Some(0),
        documentation: None,
        homepage: None,
        repository: None,
        updated_at: "2025-01-01T00:00:00Z".into(),
    }
}

/// The search flow: validate, then project what the registry returned.
fn search(
    input: SearchCratesUseCaseInput,
    upstream: Result<SearchCratesRepositoryOutput, CratesIoRepositoryError>,
) -> Result<SearchCratesUseCaseOutput, CratesIoUseCaseError> {
    let request = prepare_search_crates(input)?;
    let output = upstream.map_err(CratesIoUseCaseError::from)?;
    Ok(into_use_case_output(output, request.page, request.per_page))
}

fn search_clamps_per_page_and_propagates_total_body() {
    let out = search(
        SearchCratesUseCaseInput { query: "tokio".into(), per_page: Some(250), page: Some(0) },
        Ok(SearchCratesRepositoryOutput { total: 99, crates: vec![record()] }),
    )
    .expect("valid search");
    assert_eq!(out.total, 99);
    assert_eq!(out.per_page, 100);
    assert_eq!(out.page, 1);
    assert_eq!(out.crates.len(), 1);
    assert_eq!(out.crates[0].name, "tokio");
    assert_eq!(out.crates[0].version, "1.40.0");
}

#[test]
fn mod_search_clamps_per_page_and_propagates_total() {
    search_clamps_per_page_and_propagates_total_body();
}

#[test]
fn use_case_search_search_clamps_per_page_and_propagates_total() {
    search_clamps_per_page_and_propagates_total_body();
}

fn search_uses_defaults_when_not_specified_body() {
    let out = search(
        SearchCratesUseCaseInput { query: "anything".into(), per_page: None, page: None },
        Ok(SearchCratesRepositoryOutput { total: 0, crates: vec![] }),
    )
    .expect("valid search");
    assert_eq!(out.page, 1);
    assert_eq!(out.per_page, 10);
}

#[test]
fn mod_search_uses_defaults_when_not_specified() {
    search_uses_defaults_when_not_specified_body();
}

#[test]
fn use_case_search_search_uses_defaults_when_not_specified() {
    search_uses_defaults_when_not_specified_body();
}

fn search_rejects_empty_query_body() {
    let err = prepare_search_crates(SearchCratesUseCaseInput {
        query: "   ".into(),
        per_page: None,
        page: None,
    })
    .expect_err("expected validation error");
    assert!(matches!(err, CratesIoUseCaseError::InvalidQuery(_)), "unexpected error: {err:?}");
}

#[test]
fn mod_search_rejects_empty_query() {
    search_rejects_empty_query_body();
}

#[test]
fn use_case_search_search_rejects_empty_query() {
    search_rejects_empty_query_body();
}

fn search_bubbles_repository_failure_body() {
    let err = search(
        SearchCratesUseCaseInput { query: "tokio".into(), per_page: None, page: None },
        Err(CratesIoRepositoryError::UpstreamStatus {
            status: HttpStatus::from_code(503).unwrap(),
            url: "https://crates.io/api/v1/crates".into(),
            body: "down for maintenance".into(),
        }),
    )
    .expect_err("expected upstream failure");
    assert!(
        matches!(
            err,
            CratesIoUseCaseError::Repository(CratesIoRepositoryError::UpstreamStatus { .. })
        ),
        "unexpected error: {err:?}"
    );
}

#[test]
fn mod_search_bubbles_repository_failure() {
    search_bubbles_repository_failure_body();
}

#[test]
fn use_case_search_search_bubbles_repository_failure() {
    search_bubbles_repository_failure_body();
}

fn use_case_prefers_max_stable_when_available_body() {
    let mut rec = record();
    rec.max_version = "2.0.0-beta".into();
    rec.max_stable_version = Some("1.9.0".into());
    let out = search(
        SearchCratesUseCaseInput { query: "tokio".into(), per_page: None, page: None },
        Ok(SearchCratesRepositoryOutput { total: 1, crates: vec![rec] }),
    )
    .expect("valid search");
    assert_eq!(out.crates[0].version, "1.9.0");
}

#[test]
fn mod_use_case_prefers_max_stable_when_available() {
    use_case_prefers_max_stable_when_available_body();
}

#[test]
fn use_case_search_use_case_prefers_max_stable_when_available() {
    use_case_prefers_max_stable_when_available_body();
}

fn version_entry(num: &str, yanked: bool) -> RepositoryCrateVersion {
    let mut features = BTreeMap::new();
    features.insert("default".into(), vec!["std".into()]);
    features.insert("derive".into(), vec!["serde_derive".into()]);
    RepositoryCrateVersion {
        num: num.into(),
        yanked,
        created_at: "2025-01-01T00:00:00Z".into(),
        features,
    }
}

fn aggregate_for(name: &str, versions: Vec<RepositoryCrateVersion>) -> FetchCrateRepositoryOutput {
    let max_version = versions
        .first()
        .map(|v| v.num.clone())
        .unwrap_or_else(|| "0.0.0".into());
    FetchCrateRepositoryOutput {
        name: name.into(),
        max_version: max_version.clone(),
        max_stable_version: Some(max_version),
        versions,
    }
}

fn dep(name: &str, kind: RepositoryDependencyKind, optional: bool) -> RepositoryDependency {
    RepositoryDependency { name: name.into(), req: "^1.0".into(), kind, optional }
}

/// The metadata flow: validate, resolve against the aggregate, then
/// finish with the dependency list. A missing upstream answer is the
/// registry's 404.
fn metadata(
    input: GetCrateMetadataUseCaseInput,
    aggregate: Option<FetchCrateRepositoryOutput>,
    dependencies: Vec<RepositoryDependency>,
) -> Result<CrateMetadata, CratesIoUseCaseError> {
    let request = prepare_crate_metadata(&input)?;
    let aggregate = aggregate.ok_or_else(|| {
        CratesIoUseCaseError::from(CratesIoRepositoryError::NotFound {
            url: format!("https://crates.io/api/v1/crates/{}", request.crate_name),
        })
    })?;
    let pending = resolve_crate_metadata(
        request.crate_name.as_str(),
        aggregate,
        input.version.as_deref(),
    )?;
    assert_eq!(pending.dependencies_input.crate_name, request.crate_name);
    assert_eq!(pending.dependencies_input.version, pending.resolved_version);
    Ok(complete_crate_metadata(
        pending,
        FetchCrateVersionDependenciesRepositoryOutput { dependencies },
    ))
}

#[test]
fn metadata_resolves_latest_to_max_stable_version() {
    let mut aggregate = aggregate_for(
        "serde",
        vec![version_entry("2.0.0-beta", false), version_entry("1.40.0", false)],
    );
    aggregate.max_version = "2.0.0-beta".into();
    aggregate.max_stable_version = Some("1.40.0".into());
    let m = metadata(
        GetCrateMetadataUseCaseInput { crate_name: "serde".into(), version: None },
        Some(aggregate),
        vec![],
    )
    .expect("metadata");
    assert_eq!(m.resolved_version, "1.40.0");
    assert!(!m.resolved_version_yanked);
}

#[test]
fn metadata_resolves_latest_to_max_version_when_no_stable() {
    let mut aggregate = aggregate_for("brand-new", vec![version_entry("0.0.1-alpha.1", false)]);
    aggregate.max_stable_version = None;
    aggregate.max_version = "0.0.1-alpha.1".into();
    let m = metadata(
        GetCrateMetadataUseCaseInput {
            crate_name: "brand-new".into(),
            version: Some("latest".into()),
        },
        Some(aggregate),
        vec![],
    )
    .expect("metadata");
    assert_eq!(m.resolved_version, "0.0.1-alpha.1");
}

#[test]
fn metadata_rejects_concrete_version_not_in_list() {
    let err = metadata(
        GetCrateMetadataUseCaseInput { crate_name: "anyhow".into(), version: Some("9.9.9".into()) },
        Some(aggregate_for("anyhow", vec![version_entry("1.0.86", false)])),
        vec![],
    )
    .expect_err("expected InvalidQuery for unknown version");
    assert!(
        matches!(err, CratesIoUseCaseError::InvalidQuery(ref msg) if msg.contains("9.9.9")),
        "unexpected error: {err:?}",
    );
}

#[test]
fn metadata_caps_versions_at_limit_and_flags_truncation() {
    let versions: Vec<_> = (0..25).map(|i| version_entry(&format!("1.{i}.0"), false)).collect();
    let m = metadata(
        GetCrateMetadataUseCaseInput { crate_name: "big".into(), version: None },
        Some(aggregate_for("big", versions)),
        vec![],
    )
    .expect("metadata");
    assert_eq!(m.versions.len(), VERSIONS_CAP);
    assert!(m.versions_truncated);
}

#[test]
fn metadata_summarizes_deps_by_kind_with_full_counts() {
    let mut deps = Vec::new();
    for i in 0..20 {
        deps.push(dep(&format!("runtime-{i}"), RepositoryDependencyKind::Normal, i < 4));
    }
    for i in 0..3 {
        deps.push(dep(&format!("dev-{i}"), RepositoryDependencyKind::Dev, false));
    }
    for i in 0..2 {
        deps.push(dep(&format!("build-{i}"), RepositoryDependencyKind::Build, false));
    }
    let m = metadata(
        GetCrateMetadataUseCaseInput { crate_name: "heavy".into(), version: Some("1.0.0".into()) },
        Some(aggregate_for("heavy", vec![version_entry("1.0.0", false)])),
        deps,
    )
    .expect("metadata");
    let summary = &m.dependencies;
    assert_eq!(summary.runtime_count, 20);
    assert_eq!(summary.dev_count, 3);
    assert_eq!(summary.build_count, 2);
    assert_eq!(summary.optional_count, 4);
    assert_eq!(summary.runtime.len(), RUNTIME_DEPS_CAP);
    assert!(summary.runtime_truncated);
}

#[test]
fn metadata_propagates_repository_not_found_on_unknown_crate() {
    let err = metadata(
        GetCrateMetadataUseCaseInput { crate_name: "definitely-not-real".into(), version: None },
        None,
        vec![],
    )
    .expect_err("expected NotFound from stub default");
    assert!(
        matches!(err, CratesIoUseCaseError::Repository(CratesIoRepositoryError::NotFound { .. })),
        "unexpected error: {err:?}",
    );
}

#[test]
fn metadata_rejects_empty_crate_name() {
    let err = metadata(
        GetCrateMetadataUseCaseInput { crate_name: "   ".into(), version: None },
        None,
        vec![],
    )
    .expect_err("expected InvalidQuery for blank crate name");
    assert!(matches!(err, CratesIoUseCaseError::InvalidQuery(_)));
}

#[test]
fn metadata_reports_inconsistent_default_version() {
    let mut aggregate = aggregate_for("odd", vec![version_entry("1.0.0", false)]);
    aggregate.max_stable_version = Some("2.0.0".into());
    let err = metadata(
        GetCrateMetadataUseCaseInput { crate_name: "odd".into(), version: None },
        Some(aggregate),
        vec![],
    )
    .expect_err("expected inconsistency");
    match err {
        CratesIoUseCaseError::InconsistentUpstream(m) => assert_eq!(
            m,
            "resolved version `2.0.0` is not in the versions list of crate `odd`"
        ),
        other => panic!("unexpected error: {other:?}"),
    }
}

#[test]
fn metadata_exposes_yank_flag_and_features_of_resolved_version() {
    let mut aggregate = aggregate_for(
        "y",
        vec![version_entry("1.1.0", false), version_entry("1.0.0", true)],
    );
    aggregate.versions[1].features.insert("extra".into(), vec![]);
    let m = metadata(
        GetCrateMetadataUseCaseInput { crate_name: " y ".into(), version: Some(" 1.0.0 ".into()) },
        Some(aggregate),
        vec![],
    )
    .expect("metadata");
    assert_eq!(m.crate_name, "y");
    assert_eq!(m.resolved_version, "1.0.0");
    assert!(m.resolved_version_yanked);
    assert!(m.features.contains_key("extra"));
    assert_eq!(m.versions.len(), 2);
    assert!(!m.versions_truncated);
    assert_eq!(m.versions[1].num, "1.0.0");
    assert!(m.versions[1].yanked);
}

#[test]
fn latest_alias_is_case_insensitive() {
    let aggregate = aggregate_for("s", vec![version_entry("3.0.0", false)]);
    let v = resolve_metadata_version(&aggregate, Some(" LaTeSt ")).expect("resolves");
    assert_eq!(v, "3.0.0");
    let v = resolve_metadata_version(&aggregate, Some("")).expect("resolves");
    assert_eq!(v, "3.0.0");
}

#[test]
fn unknown_version_message_is_exact() {
    let aggregate = aggregate_for("anyhow", vec![version_entry("1.0.86", false)]);
    match resolve_metadata_version(&aggregate, Some("^1")) {
        Err(CratesIoUseCaseError::InvalidQuery(m)) => assert_eq!(
            m,
            "version `^1` not found for crate `anyhow` (semver ranges not supported here — pass a concrete version like `1.40.0` or `latest`)"
        ),
        other => panic!("unexpected: {other:?}"),
    }
}

#[test]
fn summary_keeps_runtime_order_and_counts_optional_across_kinds() {
    let deps = vec![
        dep("b", RepositoryDependencyKind::Normal, false),
        dep("dev-opt", RepositoryDependencyKind::Dev, true),
        dep("a", RepositoryDependencyKind::Normal, true),
    ];
    let s = summarize_dependencies(deps);
    assert_eq!(s.runtime_count, 2);
    assert_eq!(s.dev_count, 1);
    assert_eq!(s.build_count, 0);
    assert_eq!(s.optional_count, 2);
    assert_eq!(s.runtime.len(), 2);
    assert_eq!(s.runtime[0].name, "b");
    assert_eq!(s.runtime[1].name, "a");
    assert!(s.runtime[1].optional);
    assert!(!s.runtime_truncated);
}

#[test]
fn summary_falls_back_to_max_version() {
    let mut rec = record();
    rec.max_stable_version = None;
    rec.max_version = "0.1.0-rc.1".into();
    let s = into_summary(rec);
    assert_eq!(s.version, "0.1.0-rc.1");
    assert_eq!(s.description.as_deref(), Some("Async runtime"));
    assert_eq!(s.updated_at, "2025-01-01T00:00:00Z");
}

#[test]
fn paging_stays_in_range() {
    let r = prepare_search_crates(SearchCratesUseCaseInput {
        query: " serde ".into(),
        per_page: Some(0),
        page: Some(7),
    })
    .expect("valid");
    assert_eq!(r.query, "serde");
    assert_eq!(r.per_page, 1);
    assert_eq!(r.page, 7);
    let r = prepare_search_crates(SearchCratesUseCaseInput {
        query: "x".into(),
        per_page: Some(100),
        page: None,
    })
    .expect("valid");
    assert_eq!(r.per_page, 100);
}

#[test]
fn metadata_rejects_crate_name_outside_the_published_charset() {
    for bad in ["../etc/passwd", "a?b", "tokio#frag", "se rde"] {
        let err = prepare_crate_metadata(&GetCrateMetadataUseCaseInput {
            crate_name: bad.into(),
            version: None,
        })
        .expect_err("expected InvalidQuery");
        match err {
            CratesIoUseCaseError::InvalidQuery(m) => assert_eq!(
                m,
                format!("crate name contains disallowed characters: {bad:?}")
            ),
            other => panic!("unexpected error for {bad:?}: {other:?}"),
        }
    }
    let err = prepare_crate_metadata(&GetCrateMetadataUseCaseInput {
        crate_name: "a".repeat(65),
        version: None,
    })
    .expect_err("expected length cap to fire");
    assert!(matches!(err, CratesIoUseCaseError::InvalidQuery(ref m) if m == "crate name longer than 64 characters"));
    let ok = prepare_crate_metadata(&GetCrateMetadataUseCaseInput {
        crate_name: " Serde_json-2 ".into(),
        version: None,
    })
    .expect("valid name");
    assert_eq!(ok.crate_name, "Serde_json-2");
}

#[test]
fn metadata_flow_never_reaches_upstream_with_a_traversal_name() {
    let err = metadata(
        GetCrateMetadataUseCaseInput { crate_name: "../etc/passwd".into(), version: None },
        None,
        vec![],
    )
    .expect_err("expected validation error");
    assert!(matches!(err, CratesIoUseCaseError::InvalidQuery(_)), "unexpected error: {err:?}");
}
