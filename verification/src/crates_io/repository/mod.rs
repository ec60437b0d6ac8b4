/// Per-error-variant docs for repository failures.
pub mod error;
/// Input types accepted by the repository.
pub mod input;
/// Output types returned by the repository.
pub mod output;

pub use self::error::CratesIoRepositoryError;
pub use self::input::{
    FetchCrateInput, FetchCrateVersionDependenciesInput, SearchCratesRepositoryInput,
};
pub use self::output::{
    FetchCrateRepositoryOutput, FetchCrateVersionDependenciesRepositoryOutput,
    RepositoryCrateRecord, RepositoryCrateVersion, RepositoryDependency, RepositoryDependencyKind,
    SearchCratesRepositoryOutput,
};

use vstd::prelude::*;

use crate::text::{chars_of, owned, push_str};
use crate::upstream::HttpStatus;

verus! {

/// URL of the crates.io search endpoint under `base_url`.
pub fn search_url(base_url: &str) -> (url: String)
    ensures
        url@ == base_url@ + "/api/v1/crates"@,
{
    let mut url = owned(base_url);
    push_str(&mut url, "/api/v1/crates");
    url
}

/// URL of the per-crate aggregate endpoint for `crate_name`.
pub fn crate_url(base_url: &str, crate_name: &str) -> (url: String)
    ensures
        url@ == base_url@ + "/api/v1/crates/"@ + crate_name@,
{
    let mut url = owned(base_url);
    push_str(&mut url, "/api/v1/crates/");
    push_str(&mut url, crate_name);
    url
}

/// URL of the dependency list of one published version.
pub fn dependencies_url(base_url: &str, crate_name: &str, version: &str) -> (url: String)
    ensures
        url@ == base_url@ + "/api/v1/crates/"@ + crate_name@ + "/"@ + version@
            + "/dependencies"@,
{
    let mut url = owned(base_url);
    push_str(&mut url, "/api/v1/crates/");
    push_str(&mut url, crate_name);
    push_str(&mut url, "/");
    push_str(&mut url, version);
    push_str(&mut url, "/dependencies");
    url
}

/// The dependency section that crates.io's `kind` string names:
/// `"dev"` and `"build"` map to their sections; `"normal"`, and any kind
/// a future registry might add, map to `Normal` rather than dropping the
/// dependency.
pub open spec fn dependency_kind_spec(kind: Seq<char>) -> RepositoryDependencyKind {
    if kind == seq!['d', 'e', 'v'] {
        RepositoryDependencyKind::Dev
    } else if kind == seq!['b', 'u', 'i', 'l', 'd'] {
        RepositoryDependencyKind::Build
    } else {
        RepositoryDependencyKind::Normal
    }
}

/// Map crates.io's dependency `kind` string onto [`RepositoryDependencyKind`].
pub fn dependency_kind_from_str(kind: &str) -> (k: RepositoryDependencyKind)
    ensures
        k == dependency_kind_spec(kind@),
{
    let v = chars_of(kind);
    let dev = ['d', 'e', 'v'];
    let build = ['b', 'u', 'i', 'l', 'd'];
    if chars_equal(v.as_slice(), dev.as_slice()) {
        assert(dev@ == seq!['d', 'e', 'v']);
        RepositoryDependencyKind::Dev
    } else if chars_equal(v.as_slice(), build.as_slice()) {
        assert(build@ == seq!['b', 'u', 'i', 'l', 'd']);
        RepositoryDependencyKind::Build
    } else {
        assert(dev@ == seq!['d', 'e', 'v']);
        assert(build@ == seq!['b', 'u', 'i', 'l', 'd']);
        RepositoryDependencyKind::Normal
    }
}

/// Whether two character slices are equal.
pub fn chars_equal(a: &[char], b: &[char]) -> (r: bool)
    ensures
        r == (a@ == b@),
{
    if a.len() != b.len() {
        return false;
    }
    let mut i: usize = 0;
    while i < a.len()
        invariant
            a.len() == b.len(),
            i <= a.len(),
            forall|j: int| 0 <= j < i ==> a@[j] == b@[j],
        decreases a.len() - i,
    {
        if a[i] != b[i] {
            return false;
        }
        i = i + 1;
    }
    assert(a@ == b@);
    true
}

/// How a response is routed by its HTTP status.
#[derive(Debug, Clone, Copy, PartialEq, Eq, Structural)]
pub enum StatusRoute {
    /// 404: the resource is unknown upstream.
    NotFound,
    /// Any other non-2xx status: an upstream failure whose (bounded) body
    /// is kept as diagnostic text.
    Failure,
    /// 2xx: read the body, bounded by the configured cap.
    Success,
}

/// The route for a numeric HTTP status: 404 is `NotFound`, `200..=299`
/// is `Success`, everything else is `Failure`.
pub open spec fn status_route_spec(code: u16) -> StatusRoute {
    if code == 404 {
        StatusRoute::NotFound
    } else if 200 <= code <= 299 {
        StatusRoute::Success
    } else {
        StatusRoute::Failure
    }
}

/// Only 404 is "not found": any other status outside `200..=299` — 400,
/// 403, 429, 5xx, 3xx, 1xx — is an upstream failure, and exactly the 2xx
/// statuses succeed.
pub proof fn lemma_status_routes(code: u16)
    ensures
        status_route_spec(code) == StatusRoute::NotFound <==> code == 404,
        status_route_spec(code) == StatusRoute::Success <==> 200 <= code <= 299,
        status_route_spec(code) == StatusRoute::Failure <==> (code != 404 && !(200 <= code
            <= 299)),
{
}

/// Route a response by its status: 404 → `NotFound`, other non-2xx →
/// `Failure`, 2xx → `Success`. Shared by every endpoint so they route
/// errors identically.
pub fn route_status(status: HttpStatus) -> (r: StatusRoute)
    ensures
        r == status_route_spec(status.number()),
{
    let code = status.code();
    if code == 404 {
        StatusRoute::NotFound
    } else if 200 <= code && code <= 299 {
        StatusRoute::Success
    } else {
        StatusRoute::Failure
    }
}

/// Size cap on an error response body kept for diagnostics.
pub const ERROR_BODY_CAP: usize = 16 * 1024;

/// A response body read chunk by chunk, refusing any chunk that would
/// take it past its size cap — so a misbehaving mirror cannot exhaust
/// memory with an inflated body.
pub struct BoundedBody {
    bytes: Vec<u8>,
    limit: usize,
}

impl BoundedBody {
    /// The bytes accepted so far.
    pub closed spec fn contents(&self) -> Seq<u8> {
        self.bytes@
    }

    /// The size cap, in bytes.
    pub closed spec fn cap(&self) -> nat {
        self.limit as nat
    }

    /// The accepted bytes never exceed the cap.
    pub closed spec fn wf(&self) -> bool {
        self.bytes@.len() <= self.limit
    }

    /// An empty body with the given cap.
    pub fn new(limit: usize) -> (b: Self)
        ensures
            b.wf(),
            b.contents() == Seq::<u8>::empty(),
            b.cap() == limit,
    {
        BoundedBody { bytes: Vec::new(), limit }
    }

    /// The size cap, in bytes.
    pub fn limit(&self) -> (l: usize)
        ensures
            l == self.cap(),
    {
        self.limit
    }

    /// Append `chunk` when the total stays within the cap, and report
    /// whether it did; a refused chunk leaves the body unchanged.
    pub fn push_chunk(&mut self, chunk: &[u8]) -> (accepted: bool)
        requires
            old(self).wf(),
        ensures
            final(self).wf(),
            final(self).cap() == old(self).cap(),
            accepted == (old(self).contents().len() + chunk@.len() <= old(self).cap()),
            accepted ==> final(self).contents() == old(self).contents() + chunk@,
            !accepted ==> final(self).contents() == old(self).contents(),
    {
        if chunk.len() > self.limit - self.bytes.len() {
            return false;
        }
        let mut i: usize = 0;
        let ghost start = self.bytes@;
        let ghost lim = self.limit;
        while i < chunk.len()
            invariant
                i <= chunk.len(),
                self.limit == lim,
                start.len() + chunk@.len() <= self.limit,
                self.bytes@ == start + chunk@.subrange(0, i as int),
            decreases chunk.len() - i,
        {
            self.bytes.push(chunk[i]);
            i = i + 1;
            assert(self.bytes@ == start + chunk@.subrange(0, i as int));
        }
        assert(chunk@.subrange(0, chunk@.len() as int) == chunk@);
        true
    }

    /// Take the accepted bytes out.
    pub fn into_bytes(self) -> (v: Vec<u8>)
        ensures
            v@ == self.contents(),
    {
        self.bytes
    }
}

} // verus!
