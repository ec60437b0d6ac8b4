//! Shared input validators used across the crates.io and docs.rs
//! layers. Both consume the same `[A-Za-z0-9_-]+` rule that crates.io
//! itself enforces on publish, so housing the check here keeps the two
//! sides from drifting.

use vstd::prelude::*;
use vstd::utf8::encode_utf8;

use crate::text::{ascii_alnum, chars_of, has_char, is_ascii_alnum, is_unicode_whitespace, owned, push_str};

verus! {

/// Upper bound on crate-name length we'll accept before issuing any
/// upstream call. crates.io's own limit is 64 chars; matching it here
/// keeps the validator honest.
pub const MAX_CRATE_NAME_LEN: usize = 64;

/// Length in bytes of the UTF-8 encoding of `s` (what `str::len` returns).
pub open spec fn utf8_len(s: Seq<char>) -> nat {
    encode_utf8(s).len()
}

/// A character crates.io accepts in a crate name.
pub open spec fn is_crate_name_char(c: char) -> bool {
    is_ascii_alnum(c) || c == '_' || c == '-'
}

/// Every character of `s` is accepted in a crate name.
pub open spec fn all_crate_name_chars(s: Seq<char>) -> bool {
    forall|i: int| 0 <= i < s.len() ==> is_crate_name_char(#[trigger] s[i])
}

/// The `Debug` rendering of a string (quoted and escaped), as `{:?}` prints it.
pub uninterp spec fn debug_str(s: Seq<char>) -> Seq<char>;

/// Renders a string slice with `{:?}` (`<str as Debug>::fmt`).
#[verifier::external_body]
pub(crate) fn debug_quoted(s: &str) -> (r: String)
    ensures
        r@ == debug_str(s@),
{
    format!("{s:?}")
}

/// The message that rejects `name` as a crate name, or `None` when it is
/// accepted: non-empty, at most [`MAX_CRATE_NAME_LEN`] bytes, and made of
/// `[A-Za-z0-9_-]` only. The checks apply in this order.
pub open spec fn crate_name_problem(name: Seq<char>) -> Option<Seq<char>> {
    if name.len() == 0 {
        Some("crate name must not be empty"@)
    } else if utf8_len(name) > MAX_CRATE_NAME_LEN {
        Some("crate name longer than 64 characters"@)
    } else if !all_crate_name_chars(name) {
        Some("crate name contains disallowed characters: "@ + debug_str(name))
    } else {
        None
    }
}

/// A name that passes validation is one plain URL path segment: it is
/// non-empty and holds no `/`, `\`, `?`, `#`, `%`, `.` or whitespace, so
/// it can neither climb out of its path position nor start a query or
/// fragment.
pub proof fn lemma_valid_crate_name_is_plain_segment(name: Seq<char>)
    requires
        crate_name_problem(name) is None,
    ensures
        name.len() > 0,
        !has_char(name, '/'),
        !has_char(name, '\\'),
        !has_char(name, '?'),
        !has_char(name, '#'),
        !has_char(name, '%'),
        !has_char(name, '.'),
        forall|i: int| 0 <= i < name.len() ==> !is_unicode_whitespace(#[trigger] name[i]),
{
    assert forall|i: int| 0 <= i < name.len() implies {
        &&& name[i] != '/' && name[i] != '\\' && name[i] != '?' && name[i] != '#'
        &&& name[i] != '%' && name[i] != '.'
        &&& !is_unicode_whitespace(name[i])
    } by {
        assert(is_crate_name_char(name[i]));
    }
}

/// Executable counterpart of [`is_crate_name_char`].
pub fn crate_name_char(c: char) -> (r: bool)
    ensures
        r == is_crate_name_char(c),
{
    ascii_alnum(c) || c == '_' || c == '-'
}

/// Validate a crate name against crates.io's published character set
/// and length. Returns a plain-string error message so each caller can
/// wrap it in their own use-case error variant.
///
/// The check is deliberately strict: rejecting anything outside
/// `[A-Za-z0-9_-]+` before the network ensures we can't smuggle
/// path-traversal segments or query strings into the upstream URL.
pub fn validate_crate_name_chars(name: &str) -> (r: Result<(), String>)
    ensures
        match r {
            Ok(_) => crate_name_problem(name@) is None,
            Err(m) => crate_name_problem(name@) == Some(m@),
        },
{
    if name.is_empty() {
        return Err(owned("crate name must not be empty"));
    }
    if name.as_bytes().len() > MAX_CRATE_NAME_LEN {
        return Err(owned("crate name longer than 64 characters"));
    }
    let v = chars_of(name);
    let mut i: usize = 0;
    while i < v.len()
        invariant
            i <= v.len(),
            v@ == name@,
            name@.len() != 0,
            utf8_len(name@) <= MAX_CRATE_NAME_LEN,
            forall|j: int| 0 <= j < i ==> is_crate_name_char(#[trigger] v@[j]),
        decreases v.len() - i,
    {
        if !crate_name_char(v[i]) {
            assert(!is_crate_name_char(name@[i as int]));
            assert(!all_crate_name_chars(name@));
            let mut m = owned("crate name contains disallowed characters: ");
            let d = debug_quoted(name);
            push_str(&mut m, d.as_str());
            return Err(m);
        }
        i = i + 1;
    }
    assert(all_crate_name_chars(name@));
    Ok(())
}

} // verus!
