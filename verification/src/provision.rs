use vstd::prelude::*;
use crate::paths::{path_join, spec_join};

verus! {

/// The resolved storage locations the backend is given: a stable root,
/// a directory for downloaded content and a directory for job metadata.
pub struct DataLayout {
    pub root: String,
    pub download_dir: String,
    pub jobs_dir: String,
}

/// The data root: the application's folder under the platform's
/// local-data directory when one is available, else the working
/// directory itself.
pub open spec fn spec_root(platform_root: Option<Seq<char>>, cwd: Seq<char>) -> Seq<char> {
    match platform_root {
        Some(p) => spec_join(p, "ytmusic-downloader"@),
        None => cwd,
    }
}

/// The two subdirectories are derived from the root deterministically.
pub open spec fn layout_wf(l: DataLayout) -> bool {
    &&& l.download_dir@ == spec_join(l.root@, "download"@)
    &&& l.jobs_dir@ == spec_join(l.root@, "jobs"@)
}

/// Resolves the full layout from the platform's local-data root (absent
/// when the platform has no such concept) and the working directory.
/// Never fails: with no platform root the working directory stands in.
pub fn resolve_layout(platform_root: Option<&str>, cwd: &str) -> (r: DataLayout)
    ensures
        r.root@ == spec_root(
            match platform_root {
                Some(p) => Some(p@),
                None => None,
            },
            cwd@,
        ),
        layout_wf(r),
{
    let root = match platform_root {
        Some(p) => path_join(p, "ytmusic-downloader"),
        None => String::from_str(cwd),
    };
    let download_dir = path_join(root.as_str(), "download");
    let jobs_dir = path_join(root.as_str(), "jobs");
    DataLayout { root, download_dir, jobs_dir }
}

/// Provisioning is idempotent: any two layouts resolved from the same
/// platform root and working directory agree in every field.
pub proof fn lemma_provision_idempotent(
    a: DataLayout,
    b: DataLayout,
    platform_root: Option<Seq<char>>,
    cwd: Seq<char>,
)
    requires
        a.root@ == spec_root(platform_root, cwd),
        layout_wf(a),
        b.root@ == spec_root(platform_root, cwd),
        layout_wf(b),
    ensures
        a.root@ == b.root@,
        a.download_dir@ == b.download_dir@,
        a.jobs_dir@ == b.jobs_dir@,
{
}

/// Relies on dirs::data_local_dir: the platform's local-data root, an
/// absolute path when the platform defines one, absent otherwise. The
/// result depends on the process's environment, so nothing is promised
/// of its value.
#[verifier::external_body]
fn platform_data_root() -> (r: Option<String>) {
    dirs::data_local_dir().map(|p| p.to_string_lossy().to_string())
}

/// Resolves the layout against the platform's local-data root, falling
/// back to the working directory. Whatever root the platform reported,
/// the chosen root is either the working directory itself or the
/// application's folder under some platform root, and the two
/// subdirectories are derived from it.
pub fn provision(cwd: &str) -> (r: DataLayout)
    ensures
        layout_wf(r),
        r.root@ == cwd@ || exists|p: Seq<char>|
            r.root@ == spec_join(p, "ytmusic-downloader"@),
{
    let platform_root = platform_data_root();
    match platform_root {
        Some(p) => {
            let r = resolve_layout(Some(p.as_str()), cwd);
            proof {
                assert(r.root@ == spec_join(p@, "ytmusic-downloader"@));
            }
            r
        },
        None => resolve_layout(None, cwd),
    }
}

} // verus!
