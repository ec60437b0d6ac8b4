/// Use case error type.
pub mod error;
/// Use case input types.
pub mod input;
/// Use case output types.
pub mod output;

pub use self::error::CratesIoUseCaseError;
pub use self::input::{GetCrateMetadataUseCaseInput, SearchCratesUseCaseInput};
pub use self::output::{
    CrateMetadata, CrateSummary, CrateVersion, DependencyEntry, DependencySummary,
    PendingCrateMetadata, SearchCratesUseCaseOutput, RUNTIME_DEPS_CAP, VERSIONS_CAP,
};

use std::collections::BTreeMap;

use vstd::prelude::*;

use crate::crates_io::repository::{
    chars_equal, FetchCrateInput, FetchCrateRepositoryOutput, FetchCrateVersionDependenciesInput,
    FetchCrateVersionDependenciesRepositoryOutput, RepositoryCrateRecord, RepositoryCrateVersion,
    RepositoryDependency, RepositoryDependencyKind, SearchCratesRepositoryInput,
    SearchCratesRepositoryOutput,
};
use crate::text::{chars_of, lower_all, lower_chars, owned, push_str, trim, trimmed};
use crate::validation::{crate_name_problem, validate_crate_name_chars};

verus! {

/// Page size used when the caller gives none.
pub const DEFAULT_PER_PAGE: u8 = 10;

/// Largest page size the registry accepts.
pub const MAX_PER_PAGE: u8 = 100;

/// Page used when the caller gives none.
pub const DEFAULT_PAGE: u32 = 1;

/// Page size actually sent: the requested one (default 10) clamped to
/// `1..=100`.
pub open spec fn effective_per_page(requested: Option<u8>) -> u8 {
    let p = match requested {
        Some(p) => p,
        None => DEFAULT_PER_PAGE,
    };
    if p < 1 {
        1
    } else if p > MAX_PER_PAGE {
        MAX_PER_PAGE
    } else {
        p
    }
}

/// Page actually sent: the requested one (default 1), at least 1.
pub open spec fn effective_page(requested: Option<u32>) -> u32 {
    let p = match requested {
        Some(p) => p,
        None => DEFAULT_PAGE,
    };
    if p < 1 {
        1
    } else {
        p
    }
}

/// The paging sent upstream is always in range — a page size in
/// `1..=100` and a page of at least 1 — and re-applying the policy to
/// it changes nothing.
pub proof fn lemma_effective_paging(per_page: Option<u8>, page: Option<u32>)
    ensures
        1 <= effective_per_page(per_page) <= MAX_PER_PAGE,
        effective_page(page) >= 1,
        effective_per_page(Some(effective_per_page(per_page))) == effective_per_page(per_page),
        effective_page(Some(effective_page(page))) == effective_page(page),
{
}

/// Validate a search request and resolve its defaults: the query is
/// trimmed and must not be blank, `per_page` defaults to 10 and is
/// clamped to `1..=100`, `page` defaults to 1 and is at least 1.
pub fn prepare_search_crates(input: SearchCratesUseCaseInput) -> (r: Result<
    SearchCratesRepositoryInput,
    CratesIoUseCaseError,
>)
    ensures
        match r {
            Ok(o) => {
                &&& trim(input.query@).len() > 0
                &&& o.query@ == trim(input.query@)
                &&& o.per_page == effective_per_page(input.per_page)
                &&& o.page == effective_page(input.page)
            },
            Err(CratesIoUseCaseError::InvalidQuery(m)) => {
                &&& trim(input.query@).len() == 0
                &&& m@ == "query must not be empty"@
            },
            Err(_) => false,
        },
{
    let query = trimmed(input.query.as_str());
    if query.as_str().is_empty() {
        return Err(CratesIoUseCaseError::InvalidQuery(owned("query must not be empty")));
    }
    let requested = match input.per_page {
        Some(p) => p,
        None => DEFAULT_PER_PAGE,
    };
    let per_page = if requested < 1 {
        1
    } else if requested > MAX_PER_PAGE {
        MAX_PER_PAGE
    } else {
        requested
    };
    let requested_page = match input.page {
        Some(p) => p,
        None => DEFAULT_PAGE,
    };
    let page = if requested_page < 1 {
        1
    } else {
        requested_page
    };
    Ok(SearchCratesRepositoryInput { query, per_page, page })
}

/// The summary of one registry record: every field carried over, and
/// `version` chosen as `max_stable_version` when present, else
/// `max_version`.
pub open spec fn summary_of(record: RepositoryCrateRecord) -> CrateSummary {
    CrateSummary {
        name: record.name,
        version: match record.max_stable_version {
            Some(v) => v,
            None => record.max_version,
        },
        description: record.description,
        downloads: record.downloads,
        recent_downloads: record.recent_downloads,
        documentation: record.documentation,
        homepage: record.homepage,
        repository: record.repository,
        updated_at: record.updated_at,
    }
}

/// A search hit carries every field of its registry record under the
/// same name — name, description, download counts, documentation,
/// homepage, repository and update time — and its `version` is the
/// record's stable version when it has one, else its newest version.
pub proof fn lemma_summary_fields(record: RepositoryCrateRecord)
    ensures
        summary_of(record).name == record.name,
        summary_of(record).description == record.description,
        summary_of(record).downloads == record.downloads,
        summary_of(record).recent_downloads == record.recent_downloads,
        summary_of(record).documentation == record.documentation,
        summary_of(record).homepage == record.homepage,
        summary_of(record).repository == record.repository,
        summary_of(record).updated_at == record.updated_at,
        record.max_stable_version matches Some(s) ==> summary_of(record).version == s,
        record.max_stable_version is None ==> summary_of(record).version == record.max_version,
{
}

/// Project one registry record onto the use-case summary, applying the
/// stable-version preference.
pub fn into_summary(record: RepositoryCrateRecord) -> (s: CrateSummary)
    ensures
        s == summary_of(record),
{
    CrateSummary {
        version: match record.max_stable_version {
            Some(v) => v,
            None => record.max_version,
        },
        name: record.name,
        description: record.description,
        downloads: record.downloads,
        recent_downloads: record.recent_downloads,
        documentation: record.documentation,
        homepage: record.homepage,
        repository: record.repository,
        updated_at: record.updated_at,
    }
}

/// Project a repository search page onto the use-case output, echoing the
/// effective `page` and `per_page` and summarising each record in order.
pub fn into_use_case_output(
    output: SearchCratesRepositoryOutput,
    page: u32,
    per_page: u8,
) -> (r: SearchCratesUseCaseOutput)
    ensures
        r.total == output.total,
        r.page == page,
        r.per_page == per_page,
        r.crates@.len() == output.crates@.len(),
        forall|i: int|
            0 <= i < output.crates@.len() ==> #[trigger] r.crates@[i] == summary_of(
                output.crates@[i],
            ),
{
    let total = output.total;
    let ghost records = output.crates@;
    let mut crates: Vec<CrateSummary> = Vec::new();
    for record in it: output.crates
        invariant
            it.seq() == records,
            crates@.len() == it.index(),
            forall|i: int| 0 <= i < it.index() ==> #[trigger] crates@[i] == summary_of(records[i]),
    {
        crates.push(into_summary(record));
    }
    SearchCratesUseCaseOutput { total, page, per_page, crates }
}

/// `requested` with surrounding whitespace removed, or `None` when it is
/// absent or blank.
pub open spec fn requested_version(requested: Option<Seq<char>>) -> Option<Seq<char>> {
    match requested {
        Some(v) => if trim(v).len() > 0 {
            Some(trim(v))
        } else {
            None
        },
        None => None,
    }
}

/// `v` is `latest` in any ASCII case.
pub open spec fn is_latest_alias(v: Seq<char>) -> bool {
    lower_all(v) == seq!['l', 'a', 't', 'e', 's', 't']
}

/// The crate's default version: `max_stable_version` when present, else
/// `max_version`.
pub open spec fn default_version(aggregate: FetchCrateRepositoryOutput) -> Seq<char> {
    match aggregate.max_stable_version {
        Some(v) => v@,
        None => aggregate.max_version@,
    }
}

/// `v` is the number of one of the crate's published versions.
pub open spec fn lists_version(aggregate: FetchCrateRepositoryOutput, v: Seq<char>) -> bool {
    exists|i: int| 0 <= i < aggregate.versions@.len() && #[trigger] aggregate.versions@[i].num@ == v
}

/// The message that rejects a version the crate never published.
pub open spec fn unknown_version_message(asked: Seq<char>, crate_name: Seq<char>) -> Seq<char> {
    "version `"@ + asked + "` not found for crate `"@ + crate_name
        + "` (semver ranges not supported here — pass a concrete version like `1.40.0` or `latest`)"@
}

/// The outcome of the version-selection policy: `Ok(version)` or
/// `Err(message)` for a version the crate does not list.
pub open spec fn resolve_version_spec(
    aggregate: FetchCrateRepositoryOutput,
    requested: Option<Seq<char>>,
) -> Result<Seq<char>, Seq<char>> {
    match requested_version(requested) {
        None => Ok(default_version(aggregate)),
        Some(v) => if is_latest_alias(v) {
            Ok(default_version(aggregate))
        } else if lists_version(aggregate, v) {
            Ok(v)
        } else {
            Err(unknown_version_message(v, aggregate.name@))
        },
    }
}

/// An explicit `latest` — any ASCII case, surrounding whitespace
/// allowed — asks for exactly what an absent or blank request asks for:
/// the crate's stable version when it has one, else its newest version,
/// even when a newer pre-release exists. Any resolved version is that
/// default or a version the crate lists; only a concrete version the
/// crate does not list is refused.
pub proof fn lemma_latest_is_default(aggregate: FetchCrateRepositoryOutput, requested: Seq<char>)
    ensures
        trim(requested).len() > 0 && lower_all(trim(requested)) == "latest"@ ==> {
            &&& resolve_version_spec(aggregate, Some(requested)) == resolve_version_spec(
                aggregate,
                None,
            )
            &&& resolve_version_spec(aggregate, None) == Ok::<Seq<char>, Seq<char>>(
                match aggregate.max_stable_version {
                    Some(s) => s@,
                    None => aggregate.max_version@,
                },
            )
        },
        resolve_version_spec(aggregate, Some(requested)) matches Ok(v) ==> (v == match aggregate.max_stable_version {
            Some(s) => s@,
            None => aggregate.max_version@,
        } || exists|i: int| 0 <= i < aggregate.versions@.len() && aggregate.versions@[i].num@ == v),
        resolve_version_spec(aggregate, Some(requested)) is Err ==> {
            &&& trim(requested).len() > 0
            &&& lower_all(trim(requested)) != "latest"@
            &&& forall|i: int|
                0 <= i < aggregate.versions@.len() ==> aggregate.versions@[i].num@ != trim(requested)
        },
{
    reveal_strlit("latest");
    assert("latest"@ =~= seq!['l', 'a', 't', 'e', 's', 't']);
}

/// The view of an optional string slice.
pub open spec fn opt_view(s: Option<&str>) -> Option<Seq<char>> {
    match s {
        Some(t) => Some(t@),
        None => None,
    }
}

/// Apply the version-selection policy:
/// - `None`, blank or `latest` (any ASCII case) → `max_stable_version`
///   if present, else `max_version`;
/// - a concrete version string (trimmed) → itself when the crate lists
///   it; otherwise `InvalidQuery` (typo, unpublished, or a semver range).
pub fn resolve_metadata_version(
    aggregate: &FetchCrateRepositoryOutput,
    requested: Option<&str>,
) -> (r: Result<String, CratesIoUseCaseError>)
    ensures
        match r {
            Ok(v) => resolve_version_spec(*aggregate, opt_view(requested)) == Ok::<
                Seq<char>,
                Seq<char>,
            >(v@),
            Err(CratesIoUseCaseError::InvalidQuery(m)) => resolve_version_spec(
                *aggregate,
                opt_view(requested),
            ) == Err::<Seq<char>, Seq<char>>(m@),
            Err(_) => false,
        },
{
    let asked = match requested {
        Some(v) => {
            let t = trimmed(v);
            if t.as_str().is_empty() {
                None
            } else {
                Some(t)
            }
        },
        None => None,
    };
    let asked = match asked {
        None => {
            return Ok(default_version_of(aggregate));
        },
        Some(a) => a,
    };
    let lowered = lower_chars(&chars_of(asked.as_str()));
    let latest = ['l', 'a', 't', 'e', 's', 't'];
    assert(latest@ == seq!['l', 'a', 't', 'e', 's', 't']);
    if chars_equal(lowered.as_slice(), latest.as_slice()) {
        return Ok(default_version_of(aggregate));
    }
    assert(requested_version(opt_view(requested)) == Some(asked@));
    assert(!is_latest_alias(asked@));
    let mut i: usize = 0;
    while i < aggregate.versions.len()
        invariant
            i <= aggregate.versions@.len(),
            requested_version(opt_view(requested)) == Some(asked@),
            !is_latest_alias(asked@),
            forall|j: int| 0 <= j < i ==> aggregate.versions@[j].num@ != asked@,
        decreases aggregate.versions.len() - i,
    {
        if aggregate.versions[i].num == asked {
            assert(aggregate.versions@[i as int].num@ == asked@);
            assert(lists_version(*aggregate, asked@));
            return Ok(asked);
        }
        i = i + 1;
    }
    let mut m = owned("version `");
    push_str(&mut m, asked.as_str());
    push_str(&mut m, "` not found for crate `");
    push_str(&mut m, aggregate.name.as_str());
    push_str(
        &mut m,
        "` (semver ranges not supported here — pass a concrete version like `1.40.0` or `latest`)",
    );
    Err(CratesIoUseCaseError::InvalidQuery(m))
}

/// The crate's default version, as an owned string.
fn default_version_of(aggregate: &FetchCrateRepositoryOutput) -> (v: String)
    ensures
        v@ == default_version(*aggregate),
{
    match &aggregate.max_stable_version {
        Some(v) => v.clone(),
        None => aggregate.max_version.clone(),
    }
}

/// Number of dependencies of kind `kind`.
pub open spec fn count_kind(deps: Seq<RepositoryDependency>, kind: RepositoryDependencyKind) -> nat
    decreases deps.len(),
{
    if deps.len() == 0 {
        0
    } else {
        count_kind(deps.drop_last(), kind) + if deps.last().kind == kind {
            1nat
        } else {
            0nat
        }
    }
}

/// Number of optional dependencies.
pub open spec fn count_optional(deps: Seq<RepositoryDependency>) -> nat
    decreases deps.len(),
{
    if deps.len() == 0 {
        0
    } else {
        count_optional(deps.drop_last()) + if deps.last().optional {
            1nat
        } else {
            0nat
        }
    }
}

/// The summary entry of one dependency.
pub open spec fn entry_of(dep: RepositoryDependency) -> DependencyEntry {
    DependencyEntry { name: dep.name, version_req: dep.req, optional: dep.optional }
}

/// Entries of every runtime (`Normal`) dependency, in registry order.
pub open spec fn runtime_entries(deps: Seq<RepositoryDependency>) -> Seq<DependencyEntry>
    decreases deps.len(),
{
    if deps.len() == 0 {
        Seq::empty()
    } else if deps.last().kind == RepositoryDependencyKind::Normal {
        runtime_entries(deps.drop_last()).push(entry_of(deps.last()))
    } else {
        runtime_entries(deps.drop_last())
    }
}

/// The summary of a dependency list: exact per-kind and optional counts,
/// the first [`RUNTIME_DEPS_CAP`] runtime entries in order, and whether
/// more runtime entries existed.
pub open spec fn summary_matches(deps: Seq<RepositoryDependency>, s: DependencySummary) -> bool {
    &&& s.runtime_count == count_kind(deps, RepositoryDependencyKind::Normal)
    &&& s.dev_count == count_kind(deps, RepositoryDependencyKind::Dev)
    &&& s.build_count == count_kind(deps, RepositoryDependencyKind::Build)
    &&& s.optional_count == count_optional(deps)
    &&& s.runtime@ == runtime_entries(deps).take(
        if runtime_entries(deps).len() < RUNTIME_DEPS_CAP {
            runtime_entries(deps).len() as int
        } else {
            RUNTIME_DEPS_CAP as int
        },
    )
    &&& s.runtime_truncated == (s.runtime_count > s.runtime@.len())
}

proof fn lemma_counts_bounded(deps: Seq<RepositoryDependency>)
    ensures
        count_kind(deps, RepositoryDependencyKind::Normal) + count_kind(
            deps,
            RepositoryDependencyKind::Dev,
        ) + count_kind(deps, RepositoryDependencyKind::Build) == deps.len(),
        count_optional(deps) <= deps.len(),
        runtime_entries(deps).len() == count_kind(deps, RepositoryDependencyKind::Normal),
    decreases deps.len(),
{
    if deps.len() > 0 {
        lemma_counts_bounded(deps.drop_last());
    }
}

/// The `Normal` (runtime) dependencies of `deps`, in registry order.
pub open spec fn normal_deps(deps: Seq<RepositoryDependency>) -> Seq<RepositoryDependency> {
    deps.filter(|d: RepositoryDependency| d.kind == RepositoryDependencyKind::Normal)
}

/// The runtime entries are the `Normal` dependencies of `deps`, in
/// registry order, each as its summary entry.
pub proof fn lemma_runtime_entries_are_normal_deps(deps: Seq<RepositoryDependency>)
    ensures
        runtime_entries(deps).len() == normal_deps(deps).len(),
        forall|i: int|
            0 <= i < normal_deps(deps).len() ==> #[trigger] runtime_entries(deps)[i] == entry_of(
                normal_deps(deps)[i],
            ),
    decreases deps.len(),
{
    if deps.len() > 0 {
        lemma_runtime_entries_are_normal_deps(deps.drop_last());
        reveal_with_fuel(Seq::filter, 1);
        assert(normal_deps(deps) == if deps.last().kind == RepositoryDependencyKind::Normal {
            normal_deps(deps.drop_last()).push(deps.last())
        } else {
            normal_deps(deps.drop_last())
        });
    }
}

/// The named runtime list of a summary is the first runtime
/// dependencies in registry order — its `i`-th entry is the entry of the
/// `i`-th `Normal` dependency — and it holds all of them up to
/// [`RUNTIME_DEPS_CAP`], so it is cut only when there are more.
pub proof fn lemma_runtime_list_is_prefix(deps: Seq<RepositoryDependency>, s: DependencySummary)
    requires
        summary_matches(deps, s),
    ensures
        ({
            let normal = normal_deps(deps);
            &&& s.runtime_count == normal.len()
            &&& s.runtime@.len() == if normal.len() < RUNTIME_DEPS_CAP {
                normal.len()
            } else {
                RUNTIME_DEPS_CAP as nat
            }
            &&& forall|i: int| 0 <= i < s.runtime@.len() ==> #[trigger] s.runtime@[i] == entry_of(normal[i])
            &&& s.runtime_truncated == (normal.len() > RUNTIME_DEPS_CAP)
        }),
{
    lemma_runtime_entries_are_normal_deps(deps);
    lemma_counts_bounded(deps);
}

/// The per-kind counts of a dependency summary partition the full list —
/// every dependency is counted under exactly one kind — while the optional
/// count and the named runtime list never exceed what they are drawn from.
pub proof fn lemma_summary_counts_partition(deps: Seq<RepositoryDependency>, s: DependencySummary)
    requires
        summary_matches(deps, s),
    ensures
        s.runtime_count + s.dev_count + s.build_count == deps.len(),
        s.optional_count <= deps.len(),
        s.runtime@.len() <= s.runtime_count,
        s.runtime@.len() <= RUNTIME_DEPS_CAP,
{
    lemma_counts_bounded(deps);
}

/// Project the repository dependency list into the use-case summary
/// shape: per-kind counts (full) plus a capped named list of the
/// runtime deps.
pub fn summarize_dependencies(deps: Vec<RepositoryDependency>) -> (s: DependencySummary)
    ensures
        summary_matches(deps@, s),
{
    let n = deps.len();
    let ghost all = deps@;
    let mut runtime_count: usize = 0;
    let mut dev_count: usize = 0;
    let mut build_count: usize = 0;
    let mut optional_count: usize = 0;
    let mut runtime: Vec<DependencyEntry> = Vec::new();
    for dep in it: deps
        invariant
            it.seq() == all,
            it.index() <= all.len() <= usize::MAX,
            runtime_count == count_kind(all.take(it.index()), RepositoryDependencyKind::Normal),
            dev_count == count_kind(all.take(it.index()), RepositoryDependencyKind::Dev),
            build_count == count_kind(all.take(it.index()), RepositoryDependencyKind::Build),
            optional_count == count_optional(all.take(it.index())),
            runtime@ == runtime_entries(all.take(it.index())).take(runtime@.len() as int),
            runtime@.len() == if runtime_entries(all.take(it.index())).len() < RUNTIME_DEPS_CAP {
                runtime_entries(all.take(it.index())).len()
            } else {
                RUNTIME_DEPS_CAP as nat
            },
    {
        let ghost before = all.take(it.index());
        let ghost after = all.take(it.index() + 1);
        proof {
            assert(after.drop_last() == before);
            assert(after.last() == dep);
            lemma_counts_bounded(before);
            lemma_counts_bounded(after);
            assert(before.len() == it.index());
            assert(it.index() < all.len());
        }
        if dep.optional {
            optional_count = optional_count + 1;
        }
        match dep.kind {
            RepositoryDependencyKind::Normal => {
                runtime_count = runtime_count + 1;
                if runtime.len() < RUNTIME_DEPS_CAP {
                    runtime.push(DependencyEntry {
                        name: dep.name,
                        version_req: dep.req,
                        optional: dep.optional,
                    });
                }
                proof {
                    assert(runtime_entries(after) == runtime_entries(before).push(entry_of(dep)));
                    assert(runtime@ == runtime_entries(after).take(runtime@.len() as int));
                }
            },
            RepositoryDependencyKind::Dev => {
                dev_count = dev_count + 1;
            },
            RepositoryDependencyKind::Build => {
                build_count = build_count + 1;
            },
        }
    }
    proof {
        assert(all.take(all.len() as int) == all);
        lemma_counts_bounded(all);
    }
    let runtime_truncated = runtime_count > runtime.len();
    DependencySummary {
        runtime_count,
        dev_count,
        build_count,
        optional_count,
        runtime,
        runtime_truncated,
    }
}

/// The outcome of validating a metadata request's crate name: the
/// trimmed name, or the message that rejects it. A blank name is
/// refused as such; any other name must meet the shared crates.io rule
/// (at most 64 bytes of `[A-Za-z0-9_-]`), so no path segment or query
/// string can reach the registry URL.
pub open spec fn metadata_name_result(crate_name: Seq<char>) -> Result<Seq<char>, Seq<char>> {
    let name = trim(crate_name);
    if name.len() == 0 {
        Err("crate_name must not be empty"@)
    } else {
        match crate_name_problem(name) {
            Some(m) => Err(m),
            None => Ok(name),
        }
    }
}

/// Validate a metadata request: the crate name is trimmed, must not be
/// blank and must meet the crates.io crate-name rule; the result is the
/// per-crate fetch for that name.
pub fn prepare_crate_metadata(input: &GetCrateMetadataUseCaseInput) -> (r: Result<
    FetchCrateInput,
    CratesIoUseCaseError,
>)
    ensures
        match r {
            Ok(o) => metadata_name_result(input.crate_name@) == Ok::<Seq<char>, Seq<char>>(
                o.crate_name@,
            ),
            Err(CratesIoUseCaseError::InvalidQuery(m)) => metadata_name_result(
                input.crate_name@,
            ) == Err::<Seq<char>, Seq<char>>(m@),
            Err(_) => false,
        },
{
    let crate_name = trimmed(input.crate_name.as_str());
    if crate_name.as_str().is_empty() {
        return Err(CratesIoUseCaseError::InvalidQuery(owned("crate_name must not be empty")));
    }
    match validate_crate_name_chars(crate_name.as_str()) {
        Err(m) => Err(CratesIoUseCaseError::InvalidQuery(m)),
        Ok(()) => Ok(FetchCrateInput { crate_name }),
    }
}

/// The headline fields of one published version.
pub open spec fn version_of(v: RepositoryCrateVersion) -> CrateVersion {
    CrateVersion { num: v.num, yanked: v.yanked, created_at: v.created_at }
}

/// The number of versions surfaced out of `n`.
pub open spec fn capped_versions(n: nat) -> nat {
    if n < VERSIONS_CAP {
        n
    } else {
        VERSIONS_CAP as nat
    }
}

/// The message for a resolved version the crate's own version list lacks.
pub open spec fn missing_version_message(version: Seq<char>, crate_name: Seq<char>) -> Seq<char> {
    "resolved version `"@ + version + "` is not in the versions list of crate `"@ + crate_name
        + "`"@
}

/// Resolve the requested version against the per-crate aggregate and
/// assemble everything of the metadata bundle except the dependencies,
/// together with the dependencies request for `crate_name` at the
/// resolved version.
///
/// Fails with `InvalidQuery` when a concrete version is not listed, and
/// with `InconsistentUpstream` when the registry's own default version
/// is missing from its version list.
pub fn resolve_crate_metadata(
    crate_name: &str,
    aggregate: FetchCrateRepositoryOutput,
    requested: Option<&str>,
) -> (r: Result<PendingCrateMetadata, CratesIoUseCaseError>)
    ensures
        match r {
            Ok(p) => {
                &&& resolve_version_spec(aggregate, opt_view(requested)) == Ok::<
                    Seq<char>,
                    Seq<char>,
                >(p.resolved_version@)
                &&& p.crate_name == aggregate.name
                &&& exists|i: int|
                    0 <= i < aggregate.versions@.len() && aggregate.versions@[i].num@
                        == p.resolved_version@ && aggregate.versions@[i].yanked
                        == p.resolved_version_yanked && aggregate.versions@[i].features@
                        == p.features@ && forall|j: int|
                        0 <= j < i ==> aggregate.versions@[j].num@ != p.resolved_version@
                &&& p.versions@.len() == capped_versions(aggregate.versions@.len())
                &&& forall|i: int|
                    0 <= i < p.versions@.len() ==> #[trigger] p.versions@[i] == version_of(
                        aggregate.versions@[i],
                    )
                &&& p.versions_truncated == (aggregate.versions@.len() > VERSIONS_CAP)
                &&& p.dependencies_input.crate_name@ == crate_name@
                &&& p.dependencies_input.version@ == p.resolved_version@
            },
            Err(CratesIoUseCaseError::InvalidQuery(m)) => resolve_version_spec(
                aggregate,
                opt_view(requested),
            ) == Err::<Seq<char>, Seq<char>>(m@),
            Err(CratesIoUseCaseError::InconsistentUpstream(m)) => {
                &&& resolve_version_spec(aggregate, opt_view(requested)) is Ok
                &&& !lists_version(
                    aggregate,
                    resolve_version_spec(aggregate, opt_view(requested))->Ok_0,
                )
                &&& m@ == missing_version_message(
                    resolve_version_spec(aggregate, opt_view(requested))->Ok_0,
                    aggregate.name@,
                )
            },
            Err(_) => false,
        },
{
    let resolved = resolve_metadata_version(&aggregate, requested)?;
    let n = aggregate.versions.len();
    let mut idx: usize = 0;
    while idx < n && aggregate.versions[idx].num != resolved
        invariant
            idx <= n == aggregate.versions@.len(),
            forall|j: int| 0 <= j < idx ==> aggregate.versions@[j].num@ != resolved@,
        decreases n - idx,
    {
        idx = idx + 1;
    }
    if idx == n {
        let mut m = owned("resolved version `");
        push_str(&mut m, resolved.as_str());
        push_str(&mut m, "` is not in the versions list of crate `");
        push_str(&mut m, aggregate.name.as_str());
        push_str(&mut m, "`");
        return Err(CratesIoUseCaseError::InconsistentUpstream(m));
    }
    let features = aggregate.versions[idx].features.clone();
    let resolved_version_yanked = aggregate.versions[idx].yanked;
    let shown = if n < VERSIONS_CAP {
        n
    } else {
        VERSIONS_CAP
    };
    let mut versions: Vec<CrateVersion> = Vec::new();
    let mut i: usize = 0;
    while i < shown
        invariant
            shown <= n == aggregate.versions@.len(),
            i <= shown,
            versions@.len() == i,
            forall|j: int| 0 <= j < i ==> #[trigger] versions@[j] == version_of(aggregate.versions@[j]),
        decreases shown - i,
    {
        let v = &aggregate.versions[i];
        versions.push(CrateVersion {
            num: v.num.clone(),
            yanked: v.yanked,
            created_at: v.created_at.clone(),
        });
        i = i + 1;
    }
    let version = resolved.clone();
    Ok(PendingCrateMetadata {
        crate_name: aggregate.name,
        resolved_version: resolved,
        resolved_version_yanked,
        versions,
        versions_truncated: n > VERSIONS_CAP,
        features,
        dependencies_input: FetchCrateVersionDependenciesInput {
            crate_name: owned(crate_name),
            version,
        },
    })
}

/// Finish a metadata bundle with the dependency list of its resolved
/// version.
pub fn complete_crate_metadata(
    pending: PendingCrateMetadata,
    dependencies: FetchCrateVersionDependenciesRepositoryOutput,
) -> (m: CrateMetadata)
    ensures
        m.crate_name == pending.crate_name,
        m.resolved_version == pending.resolved_version,
        m.resolved_version_yanked == pending.resolved_version_yanked,
        m.versions == pending.versions,
        m.versions_truncated == pending.versions_truncated,
        m.features == pending.features,
        summary_matches(dependencies.dependencies@, m.dependencies),
{
    CrateMetadata {
        crate_name: pending.crate_name,
        resolved_version: pending.resolved_version,
        resolved_version_yanked: pending.resolved_version_yanked,
        versions: pending.versions,
        versions_truncated: pending.versions_truncated,
        features: pending.features,
        dependencies: summarize_dependencies(dependencies.dependencies),
    }
}

} // verus!
