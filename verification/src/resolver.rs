use vstd::prelude::*;
use crate::paths::{path_join, spec_join};

verus! {

/// The candidate locations for one executable role: packaged sidecar
/// names looked up beside the running executable, and a development-mode
/// path looked up under the current working directory.
pub struct ExecutableCandidate {
    pub sidecar_names: Vec<String>,
    pub dev_path: String,
}

/// Holds when `r` is the first index of `exists` that is set, or `None`
/// when no index is set.
pub open spec fn resolved(exists: Seq<bool>, r: Option<usize>) -> bool {
    match r {
        Some(i) => i < exists.len() && exists[i as int] && (forall|j: int|
            0 <= j < i ==> !exists[j]),
        None => forall|j: int| 0 <= j < exists.len() ==> !exists[j],
    }
}

/// Returns the index of the first candidate that exists, or `None` when
/// none does. Absence is a normal outcome, not an error.
pub fn resolve_index(exists: &Vec<bool>) -> (r: Option<usize>)
    ensures
        resolved(exists@, r),
{
    let n = exists.len();
    let mut i: usize = 0;
    while i < n
        invariant
            i <= n,
            n == exists@.len(),
            forall|j: int| 0 <= j < i ==> !exists@[j],
        decreases n - i,
    {
        if exists[i] {
            return Some(i);
        }
        i = i + 1;
    }
    None
}

/// Returns the first candidate path that exists, or `None` when none does.
pub fn resolve_path(candidates: &Vec<String>, exists: &Vec<bool>) -> (r: Option<String>)
    requires
        candidates@.len() == exists@.len(),
    ensures
        match r {
            Some(p) => exists|i: int|
                0 <= i < exists@.len() && exists@[i] && p@ == candidates@[i]@
                    && (forall|j: int| 0 <= j < i ==> !exists@[j]),
            None => forall|j: int| 0 <= j < exists@.len() ==> !exists@[j],
        },
{
    match resolve_index(exists) {
        Some(i) => Some(candidates[i].clone()),
        None => None,
    }
}

/// Exactly one candidate exists: the resolver returns its index, whatever
/// the rest of the candidate list looks like.
pub proof fn lemma_unique_candidate_found(exists: Seq<bool>, r: Option<usize>, k: int)
    requires
        resolved(exists, r),
        0 <= k < exists.len(),
        exists[k],
        forall|j: int| 0 <= j < exists.len() && j != k ==> !exists[j],
    ensures
        r == Some(k as usize),
{
    match r {
        Some(i) => {
            if (i as int) < k {
                assert(!exists[i as int]);
            }
            if (i as int) > k {
                assert(!exists[k]);
            }
        },
        None => {
            assert(!exists[k]);
        },
    }
}

/// No candidate exists: the resolver reports absence, never an error.
pub proof fn lemma_no_candidate_absent(exists: Seq<bool>, r: Option<usize>)
    requires
        resolved(exists, r),
        forall|j: int| 0 <= j < exists.len() ==> !exists[j],
    ensures
        r is None,
{
    if let Some(i) = r {
        assert(!exists[i as int]);
    }
}

/// Builds the ordered list of concrete paths to check for one candidate:
/// each sidecar name joined to the executable's directory, then the
/// development path joined to the working directory. An unreadable
/// executable directory (`None`) aborts resolution — the list is empty
/// and every lookup reports absence, never an error; an unreadable
/// working directory drops only the development candidate.
pub fn candidate_paths(c: &ExecutableCandidate, exe_dir: Option<&str>, cwd: Option<&str>) -> (r:
    Vec<String>)
    ensures
        exe_dir is None ==> r@.len() == 0,
        exe_dir matches Some(d) ==> {
            &&& r@.len() == c.sidecar_names@.len() + if cwd is Some {
                1int
            } else {
                0int
            }
            &&& forall|i: int|
                0 <= i < c.sidecar_names@.len() ==> r@[i]@ == spec_join(d@, c.sidecar_names@[i]@)
            &&& (cwd matches Some(w) ==> r@[r@.len() - 1]@ == spec_join(w@, c.dev_path@))
        },
{
    let mut r: Vec<String> = Vec::new();
    let d = match exe_dir {
        Some(d) => d,
        None => {
            return r;
        },
    };
    let n = c.sidecar_names.len();
    let mut i: usize = 0;
    while i < n
        invariant
            i <= n,
            n == c.sidecar_names@.len(),
            r@.len() == i,
            forall|j: int| 0 <= j < i ==> r@[j]@ == spec_join(d@, c.sidecar_names@[j]@),
        decreases n - i,
    {
        r.push(path_join(d, c.sidecar_names[i].as_str()));
        i = i + 1;
    }
    if let Some(w) = cwd {
        r.push(path_join(w, c.dev_path.as_str()));
    }
    r
}

/// The candidate locations of the backend executable: the
/// platform/architecture-specific packaged names first, then the
/// generic packaged name, all tried beside the running executable, and
/// last the bundled development build under the working directory.
pub fn backend_candidate() -> (r: ExecutableCandidate)
    ensures
        r.sidecar_names@.len() == 3,
        r.sidecar_names@[0]@ == "ytmusic-backend-aarch64-apple-darwin"@,
        r.sidecar_names@[1]@ == "ytmusic-backend-x86_64-apple-darwin"@,
        r.sidecar_names@[2]@ == "ytmusic-backend"@,
        r.dev_path@ == "dist/ytmusic-backend"@,
{
    let mut names: Vec<String> = Vec::new();
    names.push(String::from_str("ytmusic-backend-aarch64-apple-darwin"));
    names.push(String::from_str("ytmusic-backend-x86_64-apple-darwin"));
    names.push(String::from_str("ytmusic-backend"));
    ExecutableCandidate { sidecar_names: names, dev_path: String::from_str("dist/ytmusic-backend") }
}

/// The candidate locations of the auxiliary download tool, in the same
/// priority order as the backend's: located for the backend's use,
/// never executed by the supervisor itself.
pub fn ytdlp_candidate() -> (r: ExecutableCandidate)
    ensures
        r.sidecar_names@.len() == 3,
        r.sidecar_names@[0]@ == "yt-dlp-aarch64-apple-darwin"@,
        r.sidecar_names@[1]@ == "yt-dlp-x86_64-apple-darwin"@,
        r.sidecar_names@[2]@ == "yt-dlp"@,
        r.dev_path@ == "yt-dlp_macos"@,
{
    let mut names: Vec<String> = Vec::new();
    names.push(String::from_str("yt-dlp-aarch64-apple-darwin"));
    names.push(String::from_str("yt-dlp-x86_64-apple-darwin"));
    names.push(String::from_str("yt-dlp"));
    ExecutableCandidate { sidecar_names: names, dev_path: String::from_str("yt-dlp_macos") }
}

} // verus!
