/// Use case error type.
pub mod error;
/// Use case input types.
pub mod input;
/// Use case output types.
pub mod output;
/// Validation of crate name, version and path tail.
pub mod validate;

pub use self::error::DocsRsUseCaseError;
pub use self::input::{
    FetchCrateDocsUseCaseInput, SearchCrateDocsUseCaseInput, SearchCrateSymbolsUseCaseInput,
};
pub use self::output::{
    DocHit, FetchCrateDocsUseCaseOutput, SearchCrateDocsUseCaseOutput,
    SearchCrateSymbolsUseCaseOutput, SymbolEntry,
};
pub use self::validate::{
    crate_name_result, path_problem, validate_crate_name, validate_path, validate_version,
    version_problem, MAX_CRATE_NAME_LEN, MAX_PATH_LEN, MAX_VERSION_LEN,
};

use vstd::prelude::*;

use crate::docs_rs::repository::{FetchCrateDocsRepositoryInput, FetchCrateDocsRepositoryOutput};
use crate::text::{
    chars_of, find_from, find_spec, first_at_or_after, has_char, opt_string_view, owned, push_char, push_str,
    replace_char, string_of_range, string_of_slice, trim, trim_end_char, trim_end_char_len,
    trimmed,
};

verus! {

/// The version docs.rs serves when none is given.
pub open spec fn default_version() -> Seq<char> {
    seq!['l', 'a', 't', 'e', 's', 't']
}

/// The crate's library name: hyphens become underscores.
pub open spec fn lib_name(crate_name: Seq<char>) -> Seq<char> {
    replace_char(crate_name, '-', '_')
}

/// `{base}/{crate}/{version}/{lib}/`, the base taken without its
/// trailing slashes.
pub open spec fn docs_root(base_url: Seq<char>, crate_name: Seq<char>, version: Seq<char>) -> Seq<
    char,
> {
    trim_end_char(base_url, '/') + seq!['/'] + crate_name + seq!['/'] + version + seq!['/']
        + lib_name(crate_name) + seq!['/']
}

/// The docs.rs URL of a page: the docs root followed by the path tail.
pub open spec fn build_url_spec(
    base_url: Seq<char>,
    crate_name: Seq<char>,
    version: Seq<char>,
    path: Option<Seq<char>>,
) -> Seq<char> {
    match path {
        Some(p) => docs_root(base_url, crate_name, version) + p,
        None => docs_root(base_url, crate_name, version),
    }
}

/// The view of an optional string slice.
pub open spec fn opt_str_view(s: Option<&str>) -> Option<Seq<char>> {
    match s {
        Some(t) => Some(t@),
        None => None,
    }
}

/// Assemble `{base}/{crate}/{version}/{lib_name}/{path}` where
/// `lib_name` is the crate name with hyphens translated to underscores.
pub fn build_url(base_url: &str, crate_name: &str, version: &str, path: Option<&str>) -> (url:
    String)
    ensures
        url@ == build_url_spec(base_url@, crate_name@, version@, opt_str_view(path)),
{
    let base = chars_of(base_url);
    let n = trim_end_char_len(&base, '/');
    let mut url = string_of_range(&base, 0, n);
    push_char(&mut url, '/');
    push_str(&mut url, crate_name);
    push_char(&mut url, '/');
    push_str(&mut url, version);
    push_char(&mut url, '/');
    let name = chars_of(crate_name);
    let mut i: usize = 0;
    let ghost start = url@;
    while i < name.len()
        invariant
            i <= name.len(),
            name@ == crate_name@,
            url@ == start + replace_char(name@.subrange(0, i as int), '-', '_'),
        decreases name.len() - i,
    {
        let c = name[i];
        push_char(&mut url, if c == '-' { '_' } else { c });
        i = i + 1;
        assert(replace_char(name@.subrange(0, i as int), '-', '_') =~= replace_char(
            name@.subrange(0, i - 1),
            '-',
            '_',
        ).push(if c == '-' { '_' } else { c }));
    }
    assert(name@.subrange(0, name@.len() as int) == name@);
    push_char(&mut url, '/');
    match path {
        Some(p) => push_str(&mut url, p),
        None => {},
    }
    url
}

/// The characters of `s` before its first `/` (all of `s` when it has
/// none), as `s.split('/').next()` yields.
pub open spec fn first_segment(s: Seq<char>) -> Seq<char>
    decreases s.len(),
{
    if s.len() == 0 || s[0] == '/' {
        Seq::empty()
    } else {
        seq![s[0]] + first_segment(s.drop_first())
    }
}

/// A segment ending at the first `/` (or the end) is the first segment.
pub proof fn lemma_first_segment(s: Seq<char>, k: int)
    requires
        0 <= k <= s.len(),
        forall|j: int| 0 <= j < k ==> s[j] != '/',
        k == s.len() || s[k] == '/',
    ensures
        first_segment(s) == s.take(k),
    decreases k,
{
    if k > 0 {
        lemma_first_segment(s.drop_first(), k - 1);
        assert(s.take(k) == seq![s[0]] + s.drop_first().take(k - 1));
    }
}

/// `{base}/{crate}/`, the base taken without its trailing slashes.
pub open spec fn crate_prefix(base_url: Seq<char>, crate_name: Seq<char>) -> Seq<char> {
    trim_end_char(base_url, '/') + seq!['/'] + crate_name + seq!['/']
}

/// The version segment of a docs.rs URL of `crate_name`: the first
/// segment after `{base}/{crate}/`, or `None` when the URL does not start
/// that way or the segment is empty.
pub open spec fn parse_version_spec(
    base_url: Seq<char>,
    crate_name: Seq<char>,
    final_url: Seq<char>,
) -> Option<Seq<char>> {
    let prefix = crate_prefix(base_url, crate_name);
    if prefix.is_prefix_of(final_url) {
        let seg = first_segment(final_url.subrange(prefix.len() as int, final_url.len() as int));
        if seg.len() == 0 {
            None
        } else {
            Some(seg)
        }
    } else {
        None
    }
}

/// Pull the actual version out of the final URL after docs.rs
/// resolves `/latest/`. The URL shape we expect is
/// `{base}/{crate}/{version}/{lib_name}/...`; if it doesn't match we
/// return `None` rather than guessing.
pub fn parse_version_from_url(base_url: &str, crate_name: &str, final_url: &str) -> (r: Option<
    String,
>)
    ensures
        opt_string_view(r) == parse_version_spec(base_url@, crate_name@, final_url@),
{
    let base = chars_of(base_url);
    let n = trim_end_char_len(&base, '/');
    let mut prefix: Vec<char> = Vec::new();
    let mut i: usize = 0;
    while i < n
        invariant
            i <= n <= base.len(),
            prefix@ == base@.subrange(0, i as int),
        decreases n - i,
    {
        prefix.push(base[i]);
        i = i + 1;
        assert(prefix@ == base@.subrange(0, i as int));
    }
    prefix.push('/');
    let name = chars_of(crate_name);
    let mut k: usize = 0;
    let ghost before_name = prefix@;
    while k < name.len()
        invariant
            k <= name.len(),
            prefix@ == before_name + name@.subrange(0, k as int),
        decreases name.len() - k,
    {
        prefix.push(name[k]);
        k = k + 1;
        assert(prefix@ == before_name + name@.subrange(0, k as int));
    }
    assert(name@.subrange(0, name@.len() as int) == name@);
    prefix.push('/');
    assert(prefix@ == crate_prefix(base_url@, crate_name@));
    let url = chars_of(final_url);
    if prefix.len() > url.len() {
        assert(!prefix@.is_prefix_of(final_url@));
        return None;
    }
    let mut j: usize = 0;
    while j < prefix.len()
        invariant
            prefix.len() <= url.len(),
            j <= prefix.len(),
            prefix@ == crate_prefix(base_url@, crate_name@),
            url@ == final_url@,
            forall|m: int| 0 <= m < j ==> prefix@[m] == url@[m],
        decreases prefix.len() - j,
    {
        if prefix[j] != url[j] {
            assert(url@.subrange(0, prefix@.len() as int)[j as int] == url@[j as int]);
            assert(!prefix@.is_prefix_of(final_url@));
            return None;
        }
        j = j + 1;
    }
    assert(prefix@.is_prefix_of(url@));
    let start = prefix.len();
    let mut end = start;
    while end < url.len() && url[end] != '/'
        invariant
            start <= end <= url.len(),
            forall|m: int| start <= m < end ==> url@[m] != '/',
        decreases url.len() - end,
    {
        end = end + 1;
    }
    let ghost rest = url@.subrange(start as int, url@.len() as int);
    proof {
        lemma_first_segment(rest, end - start);
        assert(rest.take(end - start) == url@.subrange(start as int, end as int));
    }
    if end == start {
        None
    } else {
        Some(string_of_range(&url, start, end))
    }
}

/// The opening marker of rustdoc's body element.
pub open spec fn main_open() -> Seq<char> {
    seq!['<', 'm', 'a', 'i', 'n']
}

/// The closing marker of rustdoc's body element.
pub open spec fn main_close() -> Seq<char> {
    seq!['<', '/', 'm', 'a', 'i', 'n', '>']
}

/// The `<main …>…</main>` slice of a page: from the first `<main` to the
/// end of the first `</main>` after it; the whole page when either
/// marker is missing.
pub open spec fn extract_main_spec(html: Seq<char>) -> Seq<char> {
    match find_spec(html, main_open(), 0) {
        None => html,
        Some(open) => match find_spec(html, main_close(), open) {
            None => html,
            Some(close) => html.subrange(open, close + main_close().len()),
        },
    }
}

/// Pull the rustdoc body content out of the surrounding chrome
/// (sidebar, search box, footer). rustdoc emits exactly one `<main>`
/// element per page wrapping the meaningful prose, so a substring slice
/// is reliable enough. If the markers aren't found we fall back to the
/// full body so the caller still gets *something*.
pub fn extract_main_content(html: &str) -> (body: String)
    ensures
        body@ == extract_main_spec(html@),
{
    let v = chars_of(html);
    let open = ['<', 'm', 'a', 'i', 'n'];
    let close = ['<', '/', 'm', 'a', 'i', 'n', '>'];
    assert(open@ == main_open());
    assert(close@ == main_close());
    match find_from(v.as_slice(), open.as_slice(), 0) {
        None => owned(html),
        Some(open_idx) => match find_from(v.as_slice(), close.as_slice(), open_idx) {
            None => owned(html),
            Some(close_idx) => {
                assert(close@.len() == 7);
                assert(close_idx + 7 <= v.len());
                string_of_range(&v, open_idx, close_idx + 7)
            },
        },
    }
}

/// The extracted slice is either the whole page (a marker is missing) or
/// a stretch of it that starts with `<main` and ends with `</main>`.
pub proof fn lemma_extract_main_shape(html: Seq<char>)
    ensures
        extract_main_spec(html) == html || exists|lo: int, hi: int|
            0 <= lo <= hi <= html.len() && extract_main_spec(html) == html.subrange(lo, hi)
                && main_open().is_prefix_of(extract_main_spec(html))
                && main_close().is_suffix_of(extract_main_spec(html)),
{
    if let Some(open) = find_spec(html, main_open(), 0) {
        if let Some(close) = find_spec(html, main_close(), open) {
            let lo = open;
            let hi = close + main_close().len();
            let r = html.subrange(lo, hi);
            assert(first_at_or_after(html, main_open(), 0, open)) by {
                assert(exists|i: int| first_at_or_after(html, main_open(), 0, i));
            }
            assert(first_at_or_after(html, main_close(), open, close)) by {
                assert(exists|i: int| first_at_or_after(html, main_close(), open, i));
            }
            assert(r.subrange(0, main_open().len() as int) =~= html.subrange(open, open + main_open().len()));
            assert(r.subrange(r.len() - main_close().len(), r.len() as int) =~= html.subrange(close, hi));
            assert(extract_main_spec(html) == r);
        }
    }
}

/// The Markdown that `html2md::rewrite_html(html, commonmark)` produces.
pub uninterp spec fn rewrite_html_result(html: Seq<char>, commonmark: bool) -> Seq<char>;

/// `html2md::rewrite_html` (from `fast_html2md`): HTML to Markdown.
/// A function of its two arguments; the Markdown itself is named, not
/// spelled out.
#[verifier::external_body]
fn rewrite_html(html: &str, commonmark: bool) -> (markdown: String)
    ensures
        markdown@ == rewrite_html_result(html@, commonmark),
{
    html2md::rewrite_html(html, commonmark)
}

/// Convert a rustdoc page to Markdown: the `<main>` slice, rewritten
/// in CommonMark mode (no GitHub-only extensions).
pub fn html_to_markdown(html: &str) -> (markdown: String)
    ensures
        markdown@ == rewrite_html_result(extract_main_spec(html@), true),
{
    let body = extract_main_content(html);
    rewrite_html(body.as_str(), true)
}

/// `Some(trim(v))` for a present, non-blank value; `None` otherwise.
pub open spec fn non_blank(v: Option<String>) -> Option<Seq<char>> {
    match v {
        Some(s) => if trim(s@).len() > 0 {
            Some(trim(s@))
        } else {
            None
        },
        None => None,
    }
}

/// The outcome of validating a docs-page request: the normalised crate
/// name and the URL to fetch, or the message that rejects the request.
/// Checks apply to the crate name, then the version, then the path.
pub open spec fn docs_request_spec(base_url: Seq<char>, input: FetchCrateDocsUseCaseInput) -> Result<
    (Seq<char>, Seq<char>),
    Seq<char>,
> {
    match crate_name_result(trim(input.crate_name@)) {
        Err(m) => Err(m),
        Ok(name) => {
            let version: Result<Seq<char>, Seq<char>> = match non_blank(input.version) {
                None => Ok(default_version()),
                Some(v) => match version_problem(v) {
                    Some(m) => Err(m),
                    None => Ok(v),
                },
            };
            match version {
                Err(m) => Err(m),
                Ok(ver) => {
                    let path: Result<Option<Seq<char>>, Seq<char>> = match non_blank(input.path) {
                        None => Ok(None),
                        Some(p) => match path_problem(p) {
                            Some(m) => Err(m),
                            None => Ok(Some(p)),
                        },
                    };
                    match path {
                        Err(m) => Err(m),
                        Ok(tail) => Ok((name, build_url_spec(base_url, name, ver, tail))),
                    }
                },
            }
        },
    }
}

/// A trimmed copy of an optional string; `None` when absent or blank.
fn trimmed_option(v: &Option<String>) -> (r: Option<String>)
    ensures
        opt_string_view(r) == non_blank(*v),
{
    match v {
        Some(s) => {
            let t = trimmed(s.as_str());
            if t.as_str().is_empty() {
                None
            } else {
                Some(t)
            }
        },
        None => None,
    }
}

/// The version a valid request asks docs.rs for: the trimmed `version`,
/// or `latest` when it is absent or blank.
pub open spec fn requested_docs_version(input: FetchCrateDocsUseCaseInput) -> Seq<char> {
    match non_blank(input.version) {
        Some(v) => v,
        None => default_version(),
    }
}

/// A request that passes validation reports, when docs.rs serves it
/// without a redirect, the version it asked for: the version segment
/// read back out of the very URL the request built is the requested
/// version (`latest` when none was given).
pub proof fn lemma_request_reads_back_its_version(
    base_url: Seq<char>,
    input: FetchCrateDocsUseCaseInput,
)
    requires
        docs_request_spec(base_url, input) is Ok,
    ensures
        parse_version_spec(
            base_url,
            docs_request_spec(base_url, input)->Ok_0.0,
            docs_request_spec(base_url, input)->Ok_0.1,
        ) == Some(requested_docs_version(input)),
{
    let name = crate_name_result(trim(input.crate_name@))->Ok_0;
    let ver = requested_docs_version(input);
    let tail = match non_blank(input.path) {
        Some(p) => Some(p),
        None => None,
    };
    match non_blank(input.version) {
        Some(v) => {
            assert(version_problem(v) is None);
            assert(v.len() > 0);
        },
        None => {
            assert(!has_char(default_version(), '/'));
        },
    }
    assert(docs_request_spec(base_url, input)->Ok_0 == (name, build_url_spec(base_url, name, ver, tail)));
    lemma_parse_version_of_built_url(base_url, name, ver, tail);
}

/// Validate a docs-page request and assemble the docs.rs URL to fetch:
/// the crate name is trimmed, validated and lowercased; the version
/// defaults to `latest`; an absent or blank path fetches the crate root.
/// Returns the normalised crate name and the repository request.
pub fn prepare_fetch_crate_docs(base_url: &str, input: &FetchCrateDocsUseCaseInput) -> (r: Result<
    (String, FetchCrateDocsRepositoryInput),
    DocsRsUseCaseError,
>)
    ensures
        match r {
            Ok((name, request)) => docs_request_spec(base_url@, *input) == Ok::<
                (Seq<char>, Seq<char>),
                Seq<char>,
            >((name@, request.url@)),
            Err(DocsRsUseCaseError::InvalidInput(m)) => docs_request_spec(base_url@, *input)
                == Err::<(Seq<char>, Seq<char>), Seq<char>>(m@),
            Err(_) => false,
        },
{
    let name_in = trimmed(input.crate_name.as_str());
    let crate_name = validate_crate_name(name_in.as_str())?;
    let version = match trimmed_option(&input.version) {
        None => {
            let latest = ['l', 'a', 't', 'e', 's', 't'];
            assert(latest@ == default_version());
            string_of_slice(latest.as_slice())
        },
        Some(v) => validate_version(v.as_str())?,
    };
    let path = match trimmed_option(&input.path) {
        None => None,
        Some(p) => Some(validate_path(p.as_str())?),
    };
    let url = match &path {
        Some(p) => build_url(base_url, crate_name.as_str(), version.as_str(), Some(p.as_str())),
        None => build_url(base_url, crate_name.as_str(), version.as_str(), None),
    };
    Ok((crate_name, FetchCrateDocsRepositoryInput { url }))
}

/// Turn a fetched page into the use-case output: the version docs.rs
/// actually served (parsed from the final URL) and the page's `<main>`
/// slice converted to Markdown.
pub fn finish_fetch_crate_docs(
    base_url: &str,
    crate_name: String,
    output: FetchCrateDocsRepositoryOutput,
) -> (r: FetchCrateDocsUseCaseOutput)
    ensures
        r.crate_name == crate_name,
        r.final_url == output.final_url,
        opt_string_view(r.resolved_version) == parse_version_spec(
            base_url@,
            crate_name@,
            output.final_url@,
        ),
        r.markdown@ == rewrite_html_result(extract_main_spec(output.html@), true),
{
    let resolved_version = parse_version_from_url(
        base_url,
        crate_name.as_str(),
        output.final_url.as_str(),
    );
    let markdown = html_to_markdown(output.html.as_str());
    FetchCrateDocsUseCaseOutput {
        crate_name,
        resolved_version,
        final_url: output.final_url,
        markdown,
    }
}

/// Reading back the version of a URL this library builds gives the
/// version it was built with, whenever that version is one non-empty
/// path segment (no `/`): what a `/latest/`-free request reports as its
/// resolved version.
pub proof fn lemma_parse_version_of_built_url(
    base_url: Seq<char>,
    crate_name: Seq<char>,
    version: Seq<char>,
    path: Option<Seq<char>>,
)
    requires
        version.len() > 0,
        !has_char(version, '/'),
    ensures
        parse_version_spec(base_url, crate_name, build_url_spec(base_url, crate_name, version, path))
            == Some(version),
{
    let url = build_url_spec(base_url, crate_name, version, path);
    let prefix = crate_prefix(base_url, crate_name);
    let rest_after_version = seq!['/'] + lib_name(crate_name) + seq!['/'] + match path {
        Some(p) => p,
        None => Seq::empty(),
    };
    assert(url =~= prefix + version + rest_after_version);
    assert(prefix.is_prefix_of(url));
    let rest = url.subrange(prefix.len() as int, url.len() as int);
    assert(rest =~= version + rest_after_version);
    assert forall|j: int| 0 <= j < version.len() implies rest[j] != '/' by {
        assert(rest[j] == version[j]);
    }
    lemma_first_segment(rest, version.len() as int);
    assert(rest.take(version.len() as int) =~= version);
}

} // verus!
