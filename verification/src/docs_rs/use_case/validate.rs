//! Validation of the caller-supplied crate name, version and path tail
//! before any of them reaches a docs.rs URL.

use vstd::prelude::*;

use crate::docs_rs::use_case::DocsRsUseCaseError;
use crate::text::{
    chars_of, contains_exec, contains_seq, control_char, has_char, has_char_exec,
    is_control_char, is_unicode_whitespace, lower_all, lower_chars, occurs_at, owned, string_of,
    unicode_whitespace,
};
use crate::validation::{crate_name_problem, utf8_len, validate_crate_name_chars};

verus! {

/// crates.io caps published crate names at 64 ASCII characters.
pub const MAX_CRATE_NAME_LEN: usize = 64;

/// Cap on the length of `version`, in bytes.
pub const MAX_VERSION_LEN: usize = 64;

/// Cap on the length of `path`, in bytes.
pub const MAX_PATH_LEN: usize = 256;

/// The outcome of crate-name validation: the name in ASCII lowercase,
/// or the message that rejects it.
pub open spec fn crate_name_result(name: Seq<char>) -> Result<Seq<char>, Seq<char>> {
    match crate_name_problem(name) {
        Some(m) => Err(m),
        None => Ok(lower_all(name)),
    }
}

/// Validate a crate name (non-empty, at most 64 bytes, `[A-Za-z0-9_-]`
/// only) and normalise it to ASCII lowercase: docs.rs URLs are
/// case-sensitive but crates.io is case-insensitive on lookup.
pub fn validate_crate_name(name: &str) -> (r: Result<String, DocsRsUseCaseError>)
    ensures
        match r {
            Ok(n) => crate_name_result(name@) == Ok::<Seq<char>, Seq<char>>(n@),
            Err(DocsRsUseCaseError::InvalidInput(m)) => crate_name_result(name@) == Err::<
                Seq<char>,
                Seq<char>,
            >(m@),
            Err(_) => false,
        },
{
    match validate_crate_name_chars(name) {
        Err(m) => Err(DocsRsUseCaseError::InvalidInput(m)),
        Ok(()) => Ok(string_of(&lower_chars(&chars_of(name)))),
    }
}

/// Some character of `s` is whitespace or a control character.
pub open spec fn has_space_or_control(s: Seq<char>) -> bool {
    exists|i: int| 0 <= i < s.len() && (is_unicode_whitespace(s[i]) || is_control_char(s[i]))
}

/// Some character of `s` is a control character.
pub open spec fn has_control(s: Seq<char>) -> bool {
    exists|i: int| 0 <= i < s.len() && is_control_char(s[i])
}

/// The message that rejects `version`, or `None` when it is accepted.
/// The checks apply in this order.
pub open spec fn version_problem(version: Seq<char>) -> Option<Seq<char>> {
    if utf8_len(version) > MAX_VERSION_LEN {
        Some("version longer than 64 characters"@)
    } else if has_space_or_control(version) {
        Some("version must not contain whitespace or control characters"@)
    } else if has_char(version, '/') {
        Some("version must not contain '/'"@)
    } else if has_char(version, '\\') {
        Some("version must not contain '\\\\'"@)
    } else if has_char(version, '?') {
        Some("version must not contain '?'"@)
    } else if has_char(version, '#') {
        Some("version must not contain '#'"@)
    } else if contains_seq(version, seq!['.', '.']) {
        Some("version must not contain `..`"@)
    } else {
        None
    }
}

/// Which versions are accepted, stated character by character: a
/// version passes exactly when it is at most 64 bytes long, holds no
/// whitespace, control character, `/`, `\`, `?` or `#`, and no two
/// adjacent dots. Every other character — the semver-range sigils `*`,
/// `^`, `~` among them — is accepted.
pub proof fn lemma_version_acceptance(v: Seq<char>)
    ensures
        version_problem(v) is None <==> {
            &&& utf8_len(v) <= MAX_VERSION_LEN
            &&& forall|i: int|
                0 <= i < v.len() ==> {
                    &&& !is_unicode_whitespace(#[trigger] v[i])
                    &&& !is_control_char(v[i])
                    &&& v[i] != '/'
                    &&& v[i] != '\\'
                    &&& v[i] != '?'
                    &&& v[i] != '#'
                }
            &&& forall|i: int| 0 <= i < v.len() - 1 ==> !(#[trigger] v[i] == '.' && v[i + 1] == '.')
        },
{
    let dots = seq!['.', '.'];
    if contains_seq(v, dots) {
        let i = choose|i: int| occurs_at(v, dots, i);
        assert(v.subrange(i, i + 2)[0] == v[i]);
        assert(v.subrange(i, i + 2)[1] == v[i + 1]);
    }
    if exists|i: int| 0 <= i < v.len() - 1 && #[trigger] v[i] == '.' && v[i + 1] == '.' {
        let i = choose|i: int| 0 <= i < v.len() - 1 && #[trigger] v[i] == '.' && v[i + 1] == '.';
        assert(v.subrange(i, i + 2) =~= dots);
        assert(occurs_at(v, dots, i));
    }
}

/// Whether some character of `v` is whitespace or a control character.
fn has_space_or_control_exec(v: &Vec<char>) -> (r: bool)
    ensures
        r == has_space_or_control(v@),
{
    let mut i: usize = 0;
    while i < v.len()
        invariant
            i <= v.len(),
            forall|j: int|
                0 <= j < i ==> !(is_unicode_whitespace(v@[j]) || is_control_char(v@[j])),
        decreases v.len() - i,
    {
        if unicode_whitespace(v[i]) || control_char(v[i]) {
            return true;
        }
        i = i + 1;
    }
    false
}

/// Whether some character of `v` is a control character.
fn has_control_exec(v: &Vec<char>) -> (r: bool)
    ensures
        r == has_control(v@),
{
    let mut i: usize = 0;
    while i < v.len()
        invariant
            i <= v.len(),
            forall|j: int| 0 <= j < i ==> !is_control_char(v@[j]),
        decreases v.len() - i,
    {
        if control_char(v[i]) {
            return true;
        }
        i = i + 1;
    }
    false
}

/// Validate a version selector: docs.rs accepts `latest`, semver, and a
/// few semver-range sigils. Rejects anything that would let a caller
/// break out of the version path segment, smuggle in a query/fragment,
/// or inject control characters.
pub fn validate_version(version: &str) -> (r: Result<String, DocsRsUseCaseError>)
    ensures
        match r {
            Ok(v) => version_problem(version@) is None && v@ == version@,
            Err(DocsRsUseCaseError::InvalidInput(m)) => version_problem(version@) == Some(m@),
            Err(_) => false,
        },
{
    if version.as_bytes().len() > MAX_VERSION_LEN {
        return Err(DocsRsUseCaseError::InvalidInput(owned("version longer than 64 characters")));
    }
    let v = chars_of(version);
    if has_space_or_control_exec(&v) {
        return Err(
            DocsRsUseCaseError::InvalidInput(
                owned("version must not contain whitespace or control characters"),
            ),
        );
    }
    if has_char_exec(v.as_slice(), '/') {
        return Err(DocsRsUseCaseError::InvalidInput(owned("version must not contain '/'")));
    }
    if has_char_exec(v.as_slice(), '\\') {
        return Err(DocsRsUseCaseError::InvalidInput(owned("version must not contain '\\\\'")));
    }
    if has_char_exec(v.as_slice(), '?') {
        return Err(DocsRsUseCaseError::InvalidInput(owned("version must not contain '?'")));
    }
    if has_char_exec(v.as_slice(), '#') {
        return Err(DocsRsUseCaseError::InvalidInput(owned("version must not contain '#'")));
    }
    let dots = ['.', '.'];
    assert(dots@ == seq!['.', '.']);
    if contains_exec(v.as_slice(), dots.as_slice()) {
        return Err(DocsRsUseCaseError::InvalidInput(owned("version must not contain `..`")));
    }
    Ok(owned(version))
}

/// `..` stands as a whole `/`-separated segment of `p`, as
/// `p.split('/').any(|segment| segment == "..")` finds.
pub open spec fn has_dotdot_segment(p: Seq<char>) -> bool {
    exists|i: int|
        occurs_at(p, seq!['.', '.'], i) && (i == 0 || p[i - 1] == '/') && (i + 2 == p.len() || p[i
            + 2] == '/')
}

/// `p` holds a `..` segment or one of the URL-encoded spellings of `..`,
/// `/` or `\` that some proxies decode before forwarding.
pub open spec fn has_traversal(p: Seq<char>) -> bool {
    has_dotdot_segment(p) || contains_seq(lower_all(p), seq!['%', '2', 'e', '%', '2', 'e'])
        || contains_seq(lower_all(p), seq!['%', '2', 'f']) || contains_seq(
        lower_all(p),
        seq!['%', '5', 'c'],
    )
}

/// The message that rejects a path tail, or `None` when it is accepted.
/// The checks apply in this order.
pub open spec fn path_problem(path: Seq<char>) -> Option<Seq<char>> {
    if utf8_len(path) > MAX_PATH_LEN {
        Some("path longer than 256 characters"@)
    } else if path.len() > 0 && path[0] == '/' {
        Some("path must be relative (no leading `/`)"@)
    } else if has_char(path, '\\') {
        Some("path must not contain backslashes"@)
    } else if has_control(path) {
        Some("path must not contain control characters"@)
    } else if has_char(path, '?') || has_char(path, '#') {
        Some("path must not contain `?` or `#` (no query or fragment)"@)
    } else if contains_seq(path, seq!['/', '/']) {
        Some("path must not contain empty segments (`//`)"@)
    } else if has_traversal(path) {
        Some("path must not contain `..` segments or their URL-encoded equivalents"@)
    } else {
        None
    }
}

/// Whether `..` stands as a whole segment of `v`.
fn has_dotdot_segment_exec(v: &Vec<char>) -> (r: bool)
    ensures
        r == has_dotdot_segment(v@),
{
    let dots = ['.', '.'];
    assert(dots@ == seq!['.', '.']);
    let mut i: usize = 0;
    while i < v.len()
        invariant
            i <= v.len(),
            dots@ == seq!['.', '.'],
            forall|j: int|
                0 <= j < i ==> !(occurs_at(v@, seq!['.', '.'], j) && (j == 0 || v@[j - 1] == '/')
                    && (j + 2 == v@.len() || v@[j + 2] == '/')),
        decreases v.len() - i,
    {
        if crate::text::occurs_at_exec(v.as_slice(), dots.as_slice(), i) && (i == 0 || v[i - 1]
            == '/') && (i + 2 == v.len() || v[i + 2] == '/') {
            return true;
        }
        i = i + 1;
    }
    assert forall|j: int|
        !(occurs_at(v@, seq!['.', '.'], j) && (j == 0 || v@[j - 1] == '/') && (j + 2 == v@.len()
            || v@[j + 2] == '/')) by {
        if j >= v@.len() {
            assert(!occurs_at(v@, seq!['.', '.'], j));
        }
    }
    false
}

/// Validate a path tail relative to the crate's docs root: bounded,
/// relative, free of backslashes, control characters, query/fragment,
/// empty segments and parent-directory traversals (raw or URL-encoded).
pub fn validate_path(path: &str) -> (r: Result<String, DocsRsUseCaseError>)
    ensures
        match r {
            Ok(p) => path_problem(path@) is None && p@ == path@,
            Err(DocsRsUseCaseError::InvalidInput(m)) => path_problem(path@) == Some(m@),
            Err(_) => false,
        },
{
    if path.as_bytes().len() > MAX_PATH_LEN {
        return Err(DocsRsUseCaseError::InvalidInput(owned("path longer than 256 characters")));
    }
    let v = chars_of(path);
    if v.len() > 0 && v[0] == '/' {
        return Err(
            DocsRsUseCaseError::InvalidInput(owned("path must be relative (no leading `/`)")),
        );
    }
    if has_char_exec(v.as_slice(), '\\') {
        return Err(DocsRsUseCaseError::InvalidInput(owned("path must not contain backslashes")));
    }
    if has_control_exec(&v) {
        return Err(
            DocsRsUseCaseError::InvalidInput(owned("path must not contain control characters")),
        );
    }
    if has_char_exec(v.as_slice(), '?') || has_char_exec(v.as_slice(), '#') {
        return Err(
            DocsRsUseCaseError::InvalidInput(
                owned("path must not contain `?` or `#` (no query or fragment)"),
            ),
        );
    }
    let slashes = ['/', '/'];
    assert(slashes@ == seq!['/', '/']);
    if contains_exec(v.as_slice(), slashes.as_slice()) {
        return Err(
            DocsRsUseCaseError::InvalidInput(owned("path must not contain empty segments (`//`)")),
        );
    }
    let lower = lower_chars(&v);
    let dotdot = ['%', '2', 'e', '%', '2', 'e'];
    let slash = ['%', '2', 'f'];
    let backslash = ['%', '5', 'c'];
    assert(dotdot@ == seq!['%', '2', 'e', '%', '2', 'e']);
    assert(slash@ == seq!['%', '2', 'f']);
    assert(backslash@ == seq!['%', '5', 'c']);
    if has_dotdot_segment_exec(&v) || contains_exec(lower.as_slice(), dotdot.as_slice())
        || contains_exec(lower.as_slice(), slash.as_slice()) || contains_exec(
        lower.as_slice(),
        backslash.as_slice(),
    ) {
        return Err(
            DocsRsUseCaseError::InvalidInput(
                owned("path must not contain `..` segments or their URL-encoded equivalents"),
            ),
        );
    }
    Ok(owned(path))
}

} // verus!
