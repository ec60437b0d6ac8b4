//! Character-level helpers shared by the validators and URL builders.
//!
//! Strings are reasoned about through their character view (`s@`), the
//! sequence of Unicode scalar values they hold.

use vstd::prelude::*;

verus! {

/// ASCII letters and digits.
pub open spec fn is_ascii_alnum(c: char) -> bool {
    ('a' <= c && c <= 'z') || ('A' <= c && c <= 'Z') || ('0' <= c && c <= '9')
}

/// Characters with the Unicode `White_Space` property, the set that
/// `char::is_whitespace` and `str::trim` use.
pub open spec fn is_unicode_whitespace(c: char) -> bool {
    let u = c as u32;
    (0x09 <= u && u <= 0x0D) || u == 0x20 || u == 0x85 || u == 0xA0 || u == 0x1680 || (0x2000
        <= u && u <= 0x200A) || u == 0x2028 || u == 0x2029 || u == 0x202F || u == 0x205F || u
        == 0x3000
}

/// Characters of the Unicode general category `Cc` (control codes).
pub open spec fn is_control_char(c: char) -> bool {
    let u = c as u32;
    u <= 0x1F || (0x7F <= u && u <= 0x9F)
}

/// ASCII lowercase mapping of one character; every other character is
/// left as it is.
pub open spec fn ascii_lower(c: char) -> char {
    if 'A' <= c && c <= 'Z' {
        ((c as u32) + 32) as char
    } else {
        c
    }
}

/// ASCII lowercase mapping of a whole character sequence.
pub open spec fn lower_all(s: Seq<char>) -> Seq<char> {
    Seq::new(s.len(), |i: int| ascii_lower(s[i]))
}

/// `s` with every character `from` replaced by `to`.
pub open spec fn replace_char(s: Seq<char>, from: char, to: char) -> Seq<char> {
    Seq::new(s.len(), |i: int| if s[i] == from { to } else { s[i] })
}

/// `s` without its leading whitespace.
pub open spec fn trim_start(s: Seq<char>) -> Seq<char>
    decreases s.len(),
{
    if s.len() > 0 && is_unicode_whitespace(s[0]) {
        trim_start(s.drop_first())
    } else {
        s
    }
}

/// `s` without its trailing whitespace.
pub open spec fn trim_end(s: Seq<char>) -> Seq<char>
    decreases s.len(),
{
    if s.len() > 0 && is_unicode_whitespace(s.last()) {
        trim_end(s.drop_last())
    } else {
        s
    }
}

/// `s` without leading and trailing whitespace, as `str::trim` returns it.
pub open spec fn trim(s: Seq<char>) -> Seq<char> {
    trim_end(trim_start(s))
}

/// `s` with every trailing occurrence of `c` removed, as
/// `str::trim_end_matches(c)` returns it.
pub open spec fn trim_end_char(s: Seq<char>, c: char) -> Seq<char>
    decreases s.len(),
{
    if s.len() > 0 && s.last() == c {
        trim_end_char(s.drop_last(), c)
    } else {
        s
    }
}

/// `pat` occurs in `s` starting at index `i`.
pub open spec fn occurs_at(s: Seq<char>, pat: Seq<char>, i: int) -> bool {
    0 <= i && i + pat.len() <= s.len() && s.subrange(i, i + pat.len()) == pat
}

/// `i` is the first index at or after `from` where `pat` occurs in `s`.
pub open spec fn first_at_or_after(s: Seq<char>, pat: Seq<char>, from: int, i: int) -> bool {
    from <= i && occurs_at(s, pat, i) && forall|j: int| from <= j < i ==> !occurs_at(s, pat, j)
}

/// The first index at or after `from` where `pat` occurs in `s`, as
/// `str::find` on the tail starting at `from` reports it (shifted by
/// `from`).
pub open spec fn find_spec(s: Seq<char>, pat: Seq<char>, from: int) -> Option<int> {
    if exists|i: int| first_at_or_after(s, pat, from, i) {
        Some(choose|i: int| first_at_or_after(s, pat, from, i))
    } else {
        None
    }
}

/// The first occurrence is unique.
pub proof fn lemma_find_spec_some(s: Seq<char>, pat: Seq<char>, from: int, i: int)
    requires
        first_at_or_after(s, pat, from, i),
    ensures
        find_spec(s, pat, from) == Some(i),
{
    let k = choose|k: int| first_at_or_after(s, pat, from, k);
    assert(first_at_or_after(s, pat, from, k));
    if k < i {
        assert(!occurs_at(s, pat, k));
    }
    if i < k {
        assert(!occurs_at(s, pat, i));
    }
}

/// No occurrence at or after `from` means `find_spec` reports none.
pub proof fn lemma_find_spec_none(s: Seq<char>, pat: Seq<char>, from: int)
    requires
        forall|j: int| from <= j ==> !occurs_at(s, pat, j),
    ensures
        find_spec(s, pat, from) is None,
{
}

/// `pat` occurs somewhere in `s`.
pub open spec fn contains_seq(s: Seq<char>, pat: Seq<char>) -> bool {
    exists|i: int| occurs_at(s, pat, i)
}

/// `c` occurs somewhere in `s`.
pub open spec fn has_char(s: Seq<char>, c: char) -> bool {
    exists|i: int| 0 <= i < s.len() && s[i] == c
}

/// The character of a decimal digit.
pub open spec fn digit_char(d: nat) -> char {
    ((48 + d) as u8) as char
}

/// Decimal rendering of a natural number, as `Display` prints it.
pub open spec fn decimal(n: nat) -> Seq<char>
    decreases n,
{
    if n < 10 {
        seq![digit_char(n)]
    } else {
        decimal(n / 10).push(digit_char(n % 10))
    }
}

/// Executable counterpart of [`is_ascii_alnum`].
pub fn ascii_alnum(c: char) -> (r: bool)
    ensures
        r == is_ascii_alnum(c),
{
    ('a' <= c && c <= 'z') || ('A' <= c && c <= 'Z') || ('0' <= c && c <= '9')
}

/// Executable counterpart of [`is_unicode_whitespace`].
pub fn unicode_whitespace(c: char) -> (r: bool)
    ensures
        r == is_unicode_whitespace(c),
{
    let u = c as u32;
    (0x09 <= u && u <= 0x0D) || u == 0x20 || u == 0x85 || u == 0xA0 || u == 0x1680 || (0x2000
        <= u && u <= 0x200A) || u == 0x2028 || u == 0x2029 || u == 0x202F || u == 0x205F || u
        == 0x3000
}

/// Executable counterpart of [`is_control_char`].
pub fn control_char(c: char) -> (r: bool)
    ensures
        r == is_control_char(c),
{
    let u = c as u32;
    u <= 0x1F || (0x7F <= u && u <= 0x9F)
}

/// Executable counterpart of [`ascii_lower`].
pub fn lower_char(c: char) -> (r: char)
    ensures
        r == ascii_lower(c),
{
    if 'A' <= c && c <= 'Z' {
        let b = c as u8;
        assert(b as u32 == c as u32);
        ((b + 32) as u8) as char
    } else {
        c
    }
}

/// Appends one character to a string (`String::push`).
#[verifier::external_body]
pub(crate) fn push_char(s: &mut String, c: char)
    ensures
        final(s)@ == old(s)@.push(c),
{
    s.push(c)
}

/// Appends a string slice to a string.
pub(crate) fn push_str(s: &mut String, t: &str)
    ensures
        final(s)@ == old(s)@ + t@,
{
    s.append(t)
}

/// An owned copy of a string slice.
pub fn owned(t: &str) -> (s: String)
    ensures
        s@ == t@,
{
    let mut s = String::new();
    push_str(&mut s, t);
    s
}

/// Collects the characters of a string slice.
pub fn chars_of(s: &str) -> (v: Vec<char>)
    ensures
        v@ == s@,
{
    let mut v: Vec<char> = Vec::new();
    for c in it: s.chars()
        invariant
            it.seq() == s@,
            v@ == it.seq().take(it.index()),
    {
        v.push(c);
    }
    v
}

/// Builds a string out of the characters `v[lo..hi]`.
pub fn string_of_range(v: &Vec<char>, lo: usize, hi: usize) -> (s: String)
    requires
        lo <= hi <= v.len(),
    ensures
        s@ == v@.subrange(lo as int, hi as int),
{
    let mut s = String::new();
    let mut i = lo;
    while i < hi
        invariant
            lo <= i <= hi <= v.len(),
            s@ == v@.subrange(lo as int, i as int),
        decreases hi - i,
    {
        push_char(&mut s, v[i]);
        assert(v@.subrange(lo as int, i + 1) == v@.subrange(lo as int, i as int).push(v@[i as int]));
        i = i + 1;
    }
    s
}

/// Builds a string out of all characters of `v`.
pub fn string_of(v: &Vec<char>) -> (s: String)
    ensures
        s@ == v@,
{
    let s = string_of_range(v, 0, v.len());
    assert(v@.subrange(0, v@.len() as int) == v@);
    s
}

proof fn lemma_trim_start_skip(s: Seq<char>, i: int)
    requires
        0 <= i < s.len(),
        is_unicode_whitespace(s[i]),
    ensures
        trim_start(s.subrange(i, s.len() as int)) == trim_start(s.subrange(i + 1, s.len() as int)),
{
    assert(s.subrange(i, s.len() as int).drop_first() == s.subrange(i + 1, s.len() as int));
}

proof fn lemma_trim_end_skip(s: Seq<char>, lo: int, hi: int)
    requires
        0 <= lo < hi <= s.len(),
        is_unicode_whitespace(s[hi - 1]),
    ensures
        trim_end(s.subrange(lo, hi)) == trim_end(s.subrange(lo, hi - 1)),
{
    assert(s.subrange(lo, hi).drop_last() == s.subrange(lo, hi - 1));
}

/// Index bounds `(lo, hi)` of `trim(v)` inside `v`.
pub fn trim_bounds(v: &Vec<char>) -> (r: (usize, usize))
    ensures
        r.0 <= r.1 <= v.len(),
        v@.subrange(r.0 as int, r.1 as int) == trim(v@),
{
    let n = v.len();
    let mut lo: usize = 0;
    assert(v@.subrange(0, n as int) == v@);
    while lo < n && unicode_whitespace(v[lo])
        invariant
            lo <= n == v.len(),
            trim_start(v@) == trim_start(v@.subrange(lo as int, n as int)),
        decreases n - lo,
    {
        proof {
            lemma_trim_start_skip(v@, lo as int);
        }
        lo = lo + 1;
    }
    assert(trim_start(v@.subrange(lo as int, n as int)) == v@.subrange(lo as int, n as int));
    let mut hi: usize = n;
    while hi > lo && unicode_whitespace(v[hi - 1])
        invariant
            lo <= hi <= n == v.len(),
            trim(v@) == trim_end(v@.subrange(lo as int, hi as int)),
        decreases hi,
    {
        proof {
            lemma_trim_end_skip(v@, lo as int, hi as int);
        }
        hi = hi - 1;
    }
    (lo, hi)
}

/// `str::trim`, returning an owned string.
pub fn trimmed(s: &str) -> (r: String)
    ensures
        r@ == trim(s@),
{
    let v = chars_of(s);
    let (lo, hi) = trim_bounds(&v);
    string_of_range(&v, lo, hi)
}

/// `str::to_ascii_lowercase` over a character vector.
pub fn lower_chars(v: &Vec<char>) -> (r: Vec<char>)
    ensures
        r@ == lower_all(v@),
{
    let mut r: Vec<char> = Vec::new();
    let mut i: usize = 0;
    while i < v.len()
        invariant
            i <= v.len(),
            r@ == lower_all(v@.subrange(0, i as int)),
        decreases v.len() - i,
    {
        r.push(lower_char(v[i]));
        i = i + 1;
        assert(r@ == lower_all(v@.subrange(0, i as int)));
    }
    assert(v@.subrange(0, v.len() as int) == v@);
    r
}

/// Whether `pat` occurs in `v` at index `i`.
pub fn occurs_at_exec(v: &[char], pat: &[char], i: usize) -> (r: bool)
    ensures
        r == occurs_at(v@, pat@, i as int),
{
    if i > v.len() || pat.len() > v.len() - i {
        return false;
    }
    let mut k: usize = 0;
    while k < pat.len()
        invariant
            i + pat.len() <= v.len(),
            k <= pat.len(),
            forall|j: int| 0 <= j < k ==> v@[i + j] == pat@[j],
        decreases pat.len() - k,
    {
        if v[i + k] != pat[k] {
            assert(v@.subrange(i as int, i + pat.len())[k as int] != pat@[k as int]);
            return false;
        }
        k = k + 1;
    }
    assert(v@.subrange(i as int, i + pat.len()) == pat@);
    true
}

/// The first index at which `pat` occurs in `v` at or after `from`.
pub fn find_from(v: &[char], pat: &[char], from: usize) -> (r: Option<usize>)
    ensures
        match r {
            Some(i) => from <= i && occurs_at(v@, pat@, i as int) && forall|j: int|
                from <= j < i ==> !occurs_at(v@, pat@, j),
            None => forall|j: int| from <= j ==> !occurs_at(v@, pat@, j),
        },
        find_spec(v@, pat@, from as int) == match r {
            Some(i) => Some(i as int),
            None => None,
        },
{
    let mut i = from;
    while i <= v.len()
        invariant
            from <= i,
            forall|j: int| from <= j < i ==> !occurs_at(v@, pat@, j),
        ensures
            forall|j: int| from <= j <= v.len() ==> !occurs_at(v@, pat@, j),
        decreases v.len() + 1 - i,
    {
        if occurs_at_exec(v, pat, i) {
            proof {
                lemma_find_spec_some(v@, pat@, from as int, i as int);
            }
            return Some(i);
        }
        if i == v.len() {
            break;
        }
        i = i + 1;
    }
    proof {
        lemma_find_spec_none(v@, pat@, from as int);
    }
    None
}

/// Whether `pat` occurs anywhere in `v`.
pub fn contains_exec(v: &[char], pat: &[char]) -> (r: bool)
    ensures
        r == contains_seq(v@, pat@),
{
    match find_from(v, pat, 0) {
        Some(i) => true,
        None => false,
    }
}

/// Whether `c` occurs in `v`.
pub fn has_char_exec(v: &[char], c: char) -> (r: bool)
    ensures
        r == has_char(v@, c),
{
    let mut i: usize = 0;
    while i < v.len()
        invariant
            i <= v.len(),
            forall|j: int| 0 <= j < i ==> v@[j] != c,
        decreases v.len() - i,
    {
        if v[i] == c {
            return true;
        }
        i = i + 1;
    }
    false
}

/// Appends the decimal rendering of `n` to `s`.
pub fn push_decimal(s: &mut String, n: u64)
    ensures
        final(s)@ == old(s)@ + decimal(n as nat),
    decreases n,
{
    if n >= 10 {
        push_decimal(s, n / 10);
    }
    let d = (n % 10) as u8;
    push_char(s, (48u8 + d) as char);
    assert(digit_char((n % 10) as nat) == (48u8 + d) as char);
}

/// The comma-separated decimal renderings of `v`.
pub open spec fn decimal_items(v: Seq<u32>) -> Seq<char>
    decreases v.len(),
{
    if v.len() == 0 {
        Seq::empty()
    } else if v.len() == 1 {
        decimal(v[0] as nat)
    } else {
        decimal_items(v.drop_last()) + seq![',', ' '] + decimal(v.last() as nat)
    }
}

/// The `Debug` rendering of a list of numbers, e.g. `[57, 56]`.
pub open spec fn debug_u32_list(v: Seq<u32>) -> Seq<char> {
    seq!['['] + decimal_items(v) + seq![']']
}

/// Appends the `Debug` rendering of a list of numbers to `s`.
pub fn push_u32_list(s: &mut String, v: &Vec<u32>)
    ensures
        final(s)@ == old(s)@ + debug_u32_list(v@),
{
    let ghost start = s@;
    push_char(s, '[');
    let mut i: usize = 0;
    while i < v.len()
        invariant
            i <= v.len(),
            s@ == start + seq!['['] + decimal_items(v@.take(i as int)),
        decreases v.len() - i,
    {
        let ghost before = s@;
        if i > 0 {
            push_char(s, ',');
            push_char(s, ' ');
        }
        push_decimal(s, v[i] as u64);
        proof {
            let t = v@.take(i + 1);
            assert(t.drop_last() == v@.take(i as int));
            assert(t.last() == v@[i as int]);
            if i == 0 {
                assert(v@.take(0) == Seq::<u32>::empty());
                assert(s@ == start + seq!['['] + decimal_items(t));
            } else {
                assert(s@ == before + seq![',', ' '] + decimal(v@[i as int] as nat));
                assert(s@ == start + seq!['['] + decimal_items(t));
            }
        }
        i = i + 1;
    }
    push_char(s, ']');
    assert(v@.take(v@.len() as int) == v@);
}

/// Builds a string out of the characters of a slice.
pub fn string_of_slice(a: &[char]) -> (s: String)
    ensures
        s@ == a@,
{
    let mut s = String::new();
    let mut i: usize = 0;
    while i < a.len()
        invariant
            i <= a.len(),
            s@ == a@.subrange(0, i as int),
        decreases a.len() - i,
    {
        push_char(&mut s, a[i]);
        assert(a@.subrange(0, i + 1) == a@.subrange(0, i as int).push(a@[i as int]));
        i = i + 1;
    }
    assert(a@.subrange(0, a@.len() as int) == a@);
    s
}

/// Length of `trim_end_char(v, c)`: `v` without its trailing `c`s.
pub fn trim_end_char_len(v: &Vec<char>, c: char) -> (n: usize)
    ensures
        n <= v.len(),
        v@.subrange(0, n as int) == trim_end_char(v@, c),
{
    let mut n = v.len();
    assert(v@.subrange(0, n as int) == v@);
    while n > 0 && v[n - 1] == c
        invariant
            n <= v.len(),
            trim_end_char(v@, c) == trim_end_char(v@.subrange(0, n as int), c),
        decreases n,
    {
        assert(v@.subrange(0, n as int).drop_last() == v@.subrange(0, n - 1));
        n = n - 1;
    }
    n
}

/// The view of an optional string.
pub open spec fn opt_string_view(s: Option<String>) -> Option<Seq<char>> {
    match s {
        Some(t) => Some(t@),
        None => None,
    }
}

} // verus!
