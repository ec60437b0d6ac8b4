//! The `Host`-header allowlist of the serverless deployment.
//!
//! rmcp's DNS-rebinding guard defaults to loopback-only, which would
//! reject every request arriving via the deployment URL. Vercel
//! publishes its own hostnames through system env vars (`VERCEL_URL`
//! for this deployment, `VERCEL_BRANCH_URL` /
//! `VERCEL_PROJECT_PRODUCTION_URL` for the stable aliases); custom
//! domains come from the comma-separated `MCP_ALLOWED_HOSTS`.

use vstd::prelude::*;

use crate::text::{chars_of, opt_string_view, string_of, trim, trim_bounds};

verus! {

/// Lexicographic order of character sequences, by code point. On UTF-8
/// text this is the byte order that `String`'s `Ord` compares by.
pub open spec fn seq_lt(a: Seq<char>, b: Seq<char>) -> bool
    decreases a.len(),
{
    if a.len() == 0 {
        b.len() > 0
    } else if b.len() == 0 {
        false
    } else if a[0] != b[0] {
        a[0] < b[0]
    } else {
        seq_lt(a.drop_first(), b.drop_first())
    }
}

/// No sequence precedes itself.
pub proof fn lemma_seq_lt_irreflexive(a: Seq<char>)
    ensures
        !seq_lt(a, a),
    decreases a.len(),
{
    if a.len() > 0 {
        lemma_seq_lt_irreflexive(a.drop_first());
    }
}

/// The order is transitive.
pub proof fn lemma_seq_lt_transitive(a: Seq<char>, b: Seq<char>, c: Seq<char>)
    requires
        seq_lt(a, b),
        seq_lt(b, c),
    ensures
        seq_lt(a, c),
    decreases a.len(),
{
    if a.len() > 0 && b.len() > 0 && c.len() > 0 && a[0] == b[0] && b[0] == c[0] {
        lemma_seq_lt_transitive(a.drop_first(), b.drop_first(), c.drop_first());
    }
}

/// Two different sequences are ordered one way or the other.
pub proof fn lemma_seq_lt_total(a: Seq<char>, b: Seq<char>)
    requires
        a != b,
    ensures
        seq_lt(a, b) || seq_lt(b, a),
    decreases a.len(),
{
    if a.len() > 0 && b.len() > 0 && a[0] == b[0] {
        if a.drop_first() == b.drop_first() {
            assert(a =~= seq![a[0]] + a.drop_first());
            assert(b =~= seq![b[0]] + b.drop_first());
        }
        lemma_seq_lt_total(a.drop_first(), b.drop_first());
    } else if a.len() == 0 && b.len() == 0 {
        assert(a =~= b);
    }
}

/// Every element precedes every later one: sorted, without duplicates.
pub open spec fn strictly_sorted(s: Seq<Seq<char>>) -> bool {
    forall|i: int, j: int| 0 <= i < j < s.len() ==> seq_lt(#[trigger] s[i], #[trigger] s[j])
}

/// The character sequences of a sequence of character vectors.
pub open spec fn char_views(s: Seq<Vec<char>>) -> Seq<Seq<char>> {
    Seq::new(s.len(), |i: int| s[i]@)
}

/// The character sequences of a sequence of strings.
pub open spec fn string_views(s: Seq<String>) -> Seq<Seq<char>> {
    Seq::new(s.len(), |i: int| s[i]@)
}

/// The pieces of `s` completed by a comma so far, and the piece still
/// open at its end.
pub open spec fn split_state(s: Seq<char>) -> (Seq<Seq<char>>, Seq<char>)
    decreases s.len(),
{
    if s.len() == 0 {
        (Seq::empty(), Seq::empty())
    } else {
        let st = split_state(s.drop_last());
        if s.last() == ',' {
            (st.0.push(st.1), Seq::empty())
        } else {
            (st.0, st.1.push(s.last()))
        }
    }
}

/// The pieces of `s` between commas, in order, as `str::split(',')`
/// yields them (empty pieces included).
pub open spec fn comma_pieces(s: Seq<char>) -> Seq<Seq<char>> {
    split_state(s).0.push(split_state(s).1)
}

/// `h` is one of the loopback hosts, kept so local development works.
pub open spec fn loopback_host(h: Seq<char>) -> bool {
    h == "localhost"@ || h == "127.0.0.1"@ || h == "::1"@
}

/// `h` is a non-empty, whitespace-trimmed piece of the comma-separated
/// list `extra`.
pub open spec fn listed_host(extra: Seq<char>, h: Seq<char>) -> bool {
    &&& h.len() > 0
    &&& exists|k: int| 0 <= k < comma_pieces(extra).len() && #[trigger] trim(comma_pieces(extra)[k]) == h
}

/// `h` belongs on the allowlist: a loopback host, one of the three
/// deployment URLs that are set, or an entry of the extra list.
pub open spec fn allowed_host(
    vercel_url: Option<Seq<char>>,
    branch_url: Option<Seq<char>>,
    production_url: Option<Seq<char>>,
    extra: Option<Seq<char>>,
    h: Seq<char>,
) -> bool {
    ||| loopback_host(h)
    ||| vercel_url == Some(h)
    ||| branch_url == Some(h)
    ||| production_url == Some(h)
    ||| (extra matches Some(e) && listed_host(e, h))
}

/// `hosts` is the allowlist: exactly the allowed hosts, each once, in
/// ascending order.
pub open spec fn is_allowlist(
    vercel_url: Option<Seq<char>>,
    branch_url: Option<Seq<char>>,
    production_url: Option<Seq<char>>,
    extra: Option<Seq<char>>,
    hosts: Seq<Seq<char>>,
) -> bool {
    &&& strictly_sorted(hosts)
    &&& forall|h: Seq<char>|
        #[trigger] hosts.contains(h) <==> allowed_host(vercel_url, branch_url, production_url, extra, h)
}

/// Whether `a` precedes `b`.
fn chars_less(a: &Vec<char>, b: &Vec<char>) -> (r: bool)
    ensures
        r == seq_lt(a@, b@),
{
    let mut i: usize = 0;
    assert(a@.skip(0) =~= a@);
    assert(b@.skip(0) =~= b@);
    while i < a.len() && i < b.len()
        invariant
            i <= a.len(),
            i <= b.len(),
            seq_lt(a@, b@) == seq_lt(a@.skip(i as int), b@.skip(i as int)),
        decreases a.len() - i,
    {
        assert(a@.skip(i as int)[0] == a@[i as int]);
        assert(b@.skip(i as int)[0] == b@[i as int]);
        if a[i] != b[i] {
            return a[i] < b[i];
        }
        assert(a@.skip(i as int).drop_first() =~= a@.skip(i + 1));
        assert(b@.skip(i as int).drop_first() =~= b@.skip(i + 1));
        i = i + 1;
    }
    i == a.len() && i < b.len()
}

/// Insert `c` into a strictly sorted list, unless it is already there.
fn insert_sorted(out: &mut Vec<Vec<char>>, c: Vec<char>)
    requires
        strictly_sorted(char_views(old(out)@)),
    ensures
        strictly_sorted(char_views(final(out)@)),
        forall|h: Seq<char>|
            #[trigger] char_views(final(out)@).contains(h) <==> (char_views(old(out)@).contains(h)
                || h == c@),
{
    let ghost old_v = char_views(out@);
    let mut pos: usize = 0;
    while pos < out.len() && chars_less(&out[pos], &c)
        invariant
            pos <= out.len(),
            old_v == char_views(out@),
            forall|k: int| 0 <= k < pos ==> seq_lt(#[trigger] old_v[k], c@),
        decreases out.len() - pos,
    {
        pos = pos + 1;
    }
    if pos < out.len() {
        let after = chars_less(&c, &out[pos]);
        if !after {
            proof {
                assert(old_v[pos as int] == out@[pos as int]@);
                if old_v[pos as int] != c@ {
                    lemma_seq_lt_total(old_v[pos as int], c@);
                }
                assert forall|h: Seq<char>| #[trigger] old_v.contains(h) <==> (old_v.contains(h)
                    || h == c@) by {
                    if h == c@ {
                        assert(old_v[pos as int] == h);
                    }
                }
            }
            return ;
        }
        proof {
            assert forall|k: int| pos < k < old_v.len() implies seq_lt(c@, #[trigger] old_v[k]) by {
                lemma_seq_lt_transitive(c@, old_v[pos as int], old_v[k]);
            }
        }
    }
    let ghost cv = c@;
    out.insert(pos, c);
    proof {
        let nv = old_v.insert(pos as int, cv);
        assert(char_views(out@) =~= nv);
        assert forall|i: int, j: int| 0 <= i < j < nv.len() implies seq_lt(
            #[trigger] nv[i],
            #[trigger] nv[j],
        ) by {
            if j < pos {
                assert(nv[i] == old_v[i] && nv[j] == old_v[j]);
            } else if j == pos {
                assert(nv[i] == old_v[i]);
            } else if i == pos {
                assert(nv[j] == old_v[j - 1]);
            } else if i < pos {
                assert(nv[i] == old_v[i] && nv[j] == old_v[j - 1]);
                lemma_seq_lt_transitive(old_v[i], cv, old_v[j - 1]);
            } else {
                assert(nv[i] == old_v[i - 1] && nv[j] == old_v[j - 1]);
            }
        }
        assert forall|h: Seq<char>| #[trigger] nv.contains(h) <==> (old_v.contains(h) || h == cv) by {
            if nv.contains(h) {
                let k = choose|k: int| 0 <= k < nv.len() && nv[k] == h;
                if k < pos {
                    assert(old_v[k] == h);
                } else if k > pos {
                    assert(old_v[k - 1] == h);
                }
            }
            if old_v.contains(h) {
                let k = choose|k: int| 0 <= k < old_v.len() && old_v[k] == h;
                if k < pos {
                    assert(nv[k] == h);
                } else {
                    assert(nv[k + 1] == h);
                }
            }
            if h == cv {
                assert(nv[pos as int] == h);
            }
        }
    }
}

/// The characters of `trim(v)`.
fn trimmed_chars(v: &Vec<char>) -> (r: Vec<char>)
    ensures
        r@ == trim(v@),
{
    let (lo, hi) = trim_bounds(v);
    let mut r: Vec<char> = Vec::new();
    let mut i = lo;
    while i < hi
        invariant
            lo <= i <= hi <= v.len(),
            r@ == v@.subrange(lo as int, i as int),
        decreases hi - i,
    {
        r.push(v[i]);
        i = i + 1;
        assert(r@ == v@.subrange(lo as int, i as int));
    }
    r
}

/// Assemble the `Host`-header allowlist from the values of
/// `VERCEL_URL`, `VERCEL_BRANCH_URL`, `VERCEL_PROJECT_PRODUCTION_URL`
/// and `MCP_ALLOWED_HOSTS`: the loopback hosts, the deployment URLs that
/// are set, and the trimmed non-empty comma-separated extra entries,
/// sorted and without duplicates.
pub fn allowlist_of(
    vercel_url: Option<String>,
    branch_url: Option<String>,
    production_url: Option<String>,
    extra: Option<String>,
) -> (hosts: Vec<String>)
    ensures
        is_allowlist(
            opt_string_view(vercel_url),
            opt_string_view(branch_url),
            opt_string_view(production_url),
            opt_string_view(extra),
            string_views(hosts@),
        ),
{
    let ghost vu = opt_string_view(vercel_url);
    let ghost bu = opt_string_view(branch_url);
    let ghost pu = opt_string_view(production_url);
    let ghost ex = opt_string_view(extra);
    let mut out: Vec<Vec<char>> = Vec::new();
    assert(char_views(out@) =~= Seq::<Seq<char>>::empty());
    insert_sorted(&mut out, chars_of("localhost"));
    insert_sorted(&mut out, chars_of("127.0.0.1"));
    insert_sorted(&mut out, chars_of("::1"));
    match &vercel_url {
        Some(v) => insert_sorted(&mut out, chars_of(v.as_str())),
        None => {},
    }
    match &branch_url {
        Some(v) => insert_sorted(&mut out, chars_of(v.as_str())),
        None => {},
    }
    match &production_url {
        Some(v) => insert_sorted(&mut out, chars_of(v.as_str())),
        None => {},
    }
    assert forall|h: Seq<char>| #[trigger] char_views(out@).contains(h) <==> ((loopback_host(h)
        || vu == Some(h) || bu == Some(h) || pu == Some(h))) by {}
    match &extra {
        None => {},
        Some(e) => {
            let ev = chars_of(e.as_str());
            let ghost base = char_views(out@);
            let mut cur: Vec<char> = Vec::new();
            let mut i: usize = 0;
            assert(ev@.take(0) =~= Seq::<char>::empty());
            while i < ev.len()
                invariant
                    i <= ev.len(),
                    cur@ == split_state(ev@.take(i as int)).1,
                    strictly_sorted(char_views(out@)),
                    forall|h: Seq<char>|
                        #[trigger] char_views(out@).contains(h) <==> (base.contains(h) || (h.len()
                            > 0 && exists|k: int|
                            0 <= k < split_state(ev@.take(i as int)).0.len() && #[trigger] trim(
                                split_state(ev@.take(i as int)).0[k],
                            ) == h)),
                decreases ev.len() - i,
            {
                let ghost pre = ev@.take(i as int);
                let ghost done = split_state(pre).0;
                assert(ev@.take(i + 1).drop_last() =~= pre);
                assert(ev@.take(i + 1).last() == ev@[i as int]);
                if ev[i] == ',' {
                    let t = trimmed_chars(&cur);
                    let ghost tv = t@;
                    let ghost ndone = done.push(cur@);
                    if t.len() > 0 {
                        insert_sorted(&mut out, t);
                    }
                    cur = Vec::new();
                    proof {
                        assert(split_state(ev@.take(i + 1)).0 == ndone);
                        assert forall|h: Seq<char>| #[trigger] char_views(out@).contains(h) <==> (
                        base.contains(h) || (h.len() > 0 && exists|k: int|
                            0 <= k < ndone.len() && #[trigger] trim(ndone[k]) == h)) by {
                            if h.len() > 0 && h == tv {
                                assert(trim(ndone[done.len() as int]) == h);
                            }
                            if h.len() > 0 && (exists|k: int|
                                0 <= k < ndone.len() && #[trigger] trim(ndone[k]) == h) {
                                let k = choose|k: int| 0 <= k < ndone.len() && #[trigger] trim(ndone[k]) == h;
                                if k < done.len() {
                                    assert(trim(done[k]) == h);
                                }
                            }
                            if h.len() > 0 && (exists|k: int|
                                0 <= k < done.len() && #[trigger] trim(done[k]) == h) {
                                let k = choose|k: int| 0 <= k < done.len() && #[trigger] trim(done[k]) == h;
                                assert(trim(ndone[k]) == h);
                            }
                        }
                    }
                } else {
                    cur.push(ev[i]);
                }
                i = i + 1;
            }
            let t = trimmed_chars(&cur);
            let ghost tv = t@;
            let ghost done = split_state(ev@.take(i as int)).0;
            let ghost pieces = done.push(cur@);
            if t.len() > 0 {
                insert_sorted(&mut out, t);
            }
            proof {
                assert(ev@.take(i as int) =~= e@);
                assert(comma_pieces(e@) == pieces);
                assert forall|h: Seq<char>| #[trigger] char_views(out@).contains(h) <==> (
                base.contains(h) || listed_host(e@, h)) by {
                    if h.len() > 0 && h == tv {
                        assert(trim(pieces[done.len() as int]) == h);
                    }
                    if listed_host(e@, h) {
                        let k = choose|k: int| 0 <= k < pieces.len() && #[trigger] trim(pieces[k]) == h;
                        if k < done.len() {
                            assert(trim(done[k]) == h);
                        }
                    }
                    if h.len() > 0 && (exists|k: int|
                        0 <= k < done.len() && #[trigger] trim(done[k]) == h) {
                        let k = choose|k: int| 0 <= k < done.len() && #[trigger] trim(done[k]) == h;
                        assert(trim(pieces[k]) == h);
                    }
                }
            }
        },
    }
    let mut hosts: Vec<String> = Vec::new();
    let mut j: usize = 0;
    while j < out.len()
        invariant
            j <= out.len(),
            hosts@.len() == j,
            forall|k: int| 0 <= k < j ==> #[trigger] hosts@[k]@ == out@[k]@,
        decreases out.len() - j,
    {
        hosts.push(string_of(&out[j]));
        j = j + 1;
    }
    assert(string_views(hosts@) =~= char_views(out@));
    hosts
}

/// Assemble the `Host`-header allowlist for rmcp's DNS-rebinding guard,
/// reading `VERCEL_URL`, `VERCEL_BRANCH_URL`,
/// `VERCEL_PROJECT_PRODUCTION_URL` and `MCP_ALLOWED_HOSTS` through
/// `env`. Whatever `env` answers, the result is the allowlist of those
/// answers.
pub fn allowed_hosts(env: &impl Fn(&str) -> Option<String>) -> (hosts: Vec<String>)
    requires
        forall|key: &str| #[trigger] call_requires(*env, (key,)),
    ensures
        exists|vercel_url: Option<String>, branch_url: Option<String>, production_url: Option<String>, extra: Option<String>|
            {
                &&& call_ensures(*env, ("VERCEL_URL",), vercel_url)
                &&& call_ensures(*env, ("VERCEL_BRANCH_URL",), branch_url)
                &&& call_ensures(*env, ("VERCEL_PROJECT_PRODUCTION_URL",), production_url)
                &&& call_ensures(*env, ("MCP_ALLOWED_HOSTS",), extra)
                &&& is_allowlist(
                    opt_string_view(vercel_url),
                    opt_string_view(branch_url),
                    opt_string_view(production_url),
                    opt_string_view(extra),
                    string_views(hosts@),
                )
            },
{
    let vercel_url = env("VERCEL_URL");
    let branch_url = env("VERCEL_BRANCH_URL");
    let production_url = env("VERCEL_PROJECT_PRODUCTION_URL");
    let extra = env("MCP_ALLOWED_HOSTS");
    let ghost (a, b, c, d) = (vercel_url, branch_url, production_url, extra);
    let hosts = allowlist_of(vercel_url, branch_url, production_url, extra);
    assert(call_ensures(*env, ("VERCEL_URL",), a));
    hosts
}

} // verus!
