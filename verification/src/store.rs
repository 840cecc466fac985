//! Content-addressed storage of downloads: a URL maps deterministically to a
//! path under the output directory, and claiming a path is idempotent — the
//! first claim is fresh, every later claim of the same URL reuses the path.
use vstd::prelude::*;
use vstd::string::StringExecFns;
use vstd::string::StringSliceAdditionalSpecFns;

use crate::encoding::b64_chars;
use crate::encoding::encoded_name;
use crate::encoding::lemma_encoded_name_injective;
use crate::encoding::B64_INPUT_MAX;

verus! {

/// The path a URL is stored under: `out_dir / <unpadded URL-safe base64 of the URL's bytes>`.
pub open spec fn spec_store_path(out_dir: Seq<char>, url: Seq<char>) -> Seq<char> {
    out_dir + seq!['/'] + b64_chars(vstd::utf8::encode_utf8(url))
}

/// Computes the content-addressed path for `url` under `out_dir`.
pub fn target_path(out_dir: &str, url: &str) -> (r: String)
    requires
        url.spec_bytes().len() <= B64_INPUT_MAX,
    ensures
        r@ == spec_store_path(out_dir@, url@),
{
    let name = encoded_name(url);
    let mut path = out_dir.to_owned();
    path.append("/");
    path.append(name.as_str());
    proof {
        reveal_strlit("/");
        assert("/"@ =~= seq!['/']);
        assert(path@ =~= spec_store_path(out_dir@, url@));
    }
    path
}

/// Law: within one output directory the store path is a function of the URL
/// alone, and two URLs share a path only if they are the same URL.
pub proof fn lemma_store_path_injective(out_dir: Seq<char>, u1: Seq<char>, u2: Seq<char>)
    ensures
        spec_store_path(out_dir, u1) == spec_store_path(out_dir, u2) <==> u1 == u2,
{
    if spec_store_path(out_dir, u1) == spec_store_path(out_dir, u2) {
        let p = out_dir + seq!['/'];
        let a = b64_chars(vstd::utf8::encode_utf8(u1));
        let b = b64_chars(vstd::utf8::encode_utf8(u2));
        assert((p + a).len() == (p + b).len());
        assert(a =~= b) by {
            assert forall|i: int| 0 <= i < a.len() implies a[i] == b[i] by {
                assert((p + a)[p.len() + i] == a[i]);
                assert((p + b)[p.len() + i] == b[i]);
            }
        }
        lemma_encoded_name_injective(u1, u2);
    }
}

/// What one claim returns: a freshly created path that this run must fill, or
/// a path that was already present and is reused as it stands.
#[derive(Debug)]
pub enum ClaimOutcome {
    Fresh(String),
    AlreadyPresent(String),
}

impl ClaimOutcome {
    pub open spec fn path_view(&self) -> Seq<char> {
        match self {
            ClaimOutcome::Fresh(p) => p@,
            ClaimOutcome::AlreadyPresent(p) => p@,
        }
    }

    pub open spec fn is_fresh(&self) -> bool {
        self is Fresh
    }

    /// The claimed or reused path.
    pub fn path(&self) -> (r: &String)
        ensures
            r@ == self.path_view(),
    {
        match self {
            ClaimOutcome::Fresh(p) => p,
            ClaimOutcome::AlreadyPresent(p) => p,
        }
    }
}

/// Whether a claim of `url` against directory contents `present` creates a
/// fresh file.
pub open spec fn spec_claim_is_fresh(
    present: Seq<Seq<char>>,
    out_dir: Seq<char>,
    url: Seq<char>,
) -> bool {
    !present.contains(spec_store_path(out_dir, url))
}

/// The directory contents after a claim of `url`.
pub open spec fn spec_claim_next(
    present: Seq<Seq<char>>,
    out_dir: Seq<char>,
    url: Seq<char>,
) -> Seq<Seq<char>> {
    if spec_claim_is_fresh(present, out_dir, url) {
        present.push(spec_store_path(out_dir, url))
    } else {
        present
    }
}

/// The store: an output directory and the paths known to exist in it. The
/// `present` list models the directory's contents; the atomic
/// create-if-absent primitive that keeps it true under concurrency lives with
/// the caller that owns the real directory.
pub struct ContentAddressedStore {
    pub out_dir: String,
    pub present: Vec<String>,
}

fn vec_contains_string(v: &Vec<String>, s: &String) -> (r: bool)
    ensures
        r == v.deep_view().contains(s@),
{
    let mut i: usize = 0;
    while i < v.len()
        invariant
            i <= v.len(),
            forall|j: int| 0 <= j < i ==> v.deep_view()[j] != s@,
        decreases v.len() - i,
    {
        if v[i].eq(s) {
            assert(v.deep_view()[i as int] == v@[i as int]@);
            return true;
        }
        assert(v.deep_view()[i as int] == v@[i as int]@);
        i += 1;
    }
    assert(!v.deep_view().contains(s@));
    false
}

impl ContentAddressedStore {
    /// A store over `out_dir` whose directory holds the paths in `present`.
    pub fn new(out_dir: String, present: Vec<String>) -> (r: ContentAddressedStore)
        ensures
            r.out_dir == out_dir,
            r.present == present,
    {
        ContentAddressedStore { out_dir, present }
    }

    /// Claims the content-addressed path of `url`: fresh exactly when the
    /// path is not yet present, in which case it becomes present; an already
    /// present path is reused unchanged, and nothing more is downloaded for it.
    pub fn claim(&mut self, url: &str) -> (r: ClaimOutcome)
        requires
            url.spec_bytes().len() <= B64_INPUT_MAX,
        ensures
            r.path_view() == spec_store_path(old(self).out_dir@, url@),
            r.is_fresh() == spec_claim_is_fresh(
                old(self).present.deep_view(),
                old(self).out_dir@,
                url@,
            ),
            final(self).present.deep_view() == spec_claim_next(
                old(self).present.deep_view(),
                old(self).out_dir@,
                url@,
            ),
            final(self).out_dir == old(self).out_dir,
    {
        let path = target_path(self.out_dir.as_str(), url);
        if vec_contains_string(&self.present, &path) {
            ClaimOutcome::AlreadyPresent(path)
        } else {
            let path_copy = path.clone();
            self.present.push(path_copy);
            assert(self.present.deep_view() =~= spec_claim_next(
                old(self).present.deep_view(),
                old(self).out_dir@,
                url@,
            ));
            ClaimOutcome::Fresh(path)
        }
    }
}

/// What the filesystem's atomic exclusive-create reported for a path. The
/// atomicity of create-if-absent is the concurrency-safety primitive; a
/// check-then-create race is no substitute for it.
pub enum CreateOutcome {
    /// The file was created for exclusive write.
    Created,
    /// The path already existed.
    AlreadyExists,
    /// Any other creation failure: permissions, invalid path, disk full.
    Failed,
}

/// A creation failure other than "already exists": fatal for this one item
/// only, never for the worker that met it.
#[derive(Debug)]
pub struct StoreError {}

/// Interprets the exclusive-create outcome for `path`: a created file is a
/// fresh claim this run must fill, an existing file is reused as it stands,
/// and anything else drops the one item.
pub fn resolve_claim(path: String, outcome: &CreateOutcome) -> (r: Result<
    ClaimOutcome,
    StoreError,
>)
    ensures
        outcome is Created ==> (r matches Ok(c) && c.is_fresh() && c.path_view() == path@),
        outcome is AlreadyExists ==> (r matches Ok(c) && !c.is_fresh() && c.path_view() == path@),
        outcome is Failed <==> r is Err,
{
    match outcome {
        CreateOutcome::Created => Ok(ClaimOutcome::Fresh(path)),
        CreateOutcome::AlreadyExists => Ok(ClaimOutcome::AlreadyPresent(path)),
        CreateOutcome::Failed => Err(StoreError {}),
    }
}

/// Law: claiming the same URL twice. After any claim the path is present, so
/// a second claim of the same URL is never fresh, returns the very same path,
/// and leaves the directory as it was.
pub proof fn lemma_claim_twice(present: Seq<Seq<char>>, out_dir: Seq<char>, url: Seq<char>)
    ensures
        !spec_claim_is_fresh(spec_claim_next(present, out_dir, url), out_dir, url),
        spec_claim_next(spec_claim_next(present, out_dir, url), out_dir, url)
            == spec_claim_next(present, out_dir, url),
{
    let path = spec_store_path(out_dir, url);
    if spec_claim_is_fresh(present, out_dir, url) {
        assert(present.push(path)[present.len() as int] == path);
        assert(present.push(path).contains(path));
    }
}

} // verus!
