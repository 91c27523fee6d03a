use vstd::prelude::*;
use crate::provision::DataLayout;

verus! {

/// One way of starting the backend, in the order the supervisor tries
/// them: the packaged executable found by the resolver, or the
/// platform's interpreter run against the scripted entry point in the
/// working directory.
pub enum LaunchStrategy {
    Packaged { path: String },
    Script,
}

/// The environment handed to a packaged backend: the listening port,
/// the two data directories, and the auxiliary tool's path when one was
/// located.
pub fn build_env(layout: &DataLayout, ytdlp: Option<&String>) -> (r: Vec<(String, String)>)
    ensures
        r@.len() == if ytdlp is Some {
            4int
        } else {
            3int
        },
        r@[0].0@ == "PORT"@ && r@[0].1@ == "5000"@,
        r@[1].0@ == "DOWNLOAD_DIR"@ && r@[1].1@ == layout.download_dir@,
        r@[2].0@ == "JOBS_DIR"@ && r@[2].1@ == layout.jobs_dir@,
        ytdlp matches Some(p) ==> r@[3].0@ == "YTDLP_BIN"@ && r@[3].1@ == p@,
        ytdlp is None ==> forall|i: int| 0 <= i < r@.len() ==> r@[i].0@ != "YTDLP_BIN"@,
{
    let mut r: Vec<(String, String)> = Vec::new();
    r.push((String::from_str("PORT"), String::from_str("5000")));
    r.push((String::from_str("DOWNLOAD_DIR"), layout.download_dir.clone()));
    r.push((String::from_str("JOBS_DIR"), layout.jobs_dir.clone()));
    if let Some(p) = ytdlp {
        r.push((String::from_str("YTDLP_BIN"), p.clone()));
    }
    proof {
        reveal_strlit("PORT");
        reveal_strlit("DOWNLOAD_DIR");
        reveal_strlit("JOBS_DIR");
        reveal_strlit("YTDLP_BIN");
        assert(("PORT")@.len() == 4);
        assert(("DOWNLOAD_DIR")@.len() == 12);
        assert(("JOBS_DIR")@.len() == 8);
        assert(("YTDLP_BIN")@.len() == 9);
    }
    r
}

/// The environment handed to the scripted fallback: the listening port
/// alone; the interpreter inherits the working directory for the rest.
pub fn script_env() -> (r: Vec<(String, String)>)
    ensures
        r@.len() == 1,
        r@[0].0@ == "PORT"@ && r@[0].1@ == "5000"@,
{
    let mut r: Vec<(String, String)> = Vec::new();
    r.push((String::from_str("PORT"), String::from_str("5000")));
    r
}

/// The ordered strategies to try, first success wins: the packaged
/// backend when the resolver found one, then the scripted fallback when
/// its entry point exists. An empty plan means no backend is available;
/// the application then proceeds degraded rather than failing.
pub fn launch_plan(backend: Option<&String>, script_exists: bool) -> (r: Vec<LaunchStrategy>)
    ensures
        r@.len() == (if backend is Some {
            1int
        } else {
            0int
        }) + (if script_exists {
            1int
        } else {
            0int
        }),
        backend matches Some(b) ==> r@[0] matches LaunchStrategy::Packaged { path } && path@
            == b@,
        script_exists ==> r@[r@.len() - 1] is Script,
        r@.len() == 0 <==> (backend is None && !script_exists),
{
    let mut r: Vec<LaunchStrategy> = Vec::new();
    if let Some(b) = backend {
        r.push(LaunchStrategy::Packaged { path: b.clone() });
    }
    if script_exists {
        r.push(LaunchStrategy::Script);
    }
    r
}

} // verus!
