use vstd::prelude::*;

verus! {

/// Exclusive owner of the running backend's identity. The application
/// holds one of these behind its own mutual exclusion and maps the
/// token to the real process handle; every start/stop decision is made
/// here, so a second backend is never tracked while one runs and
/// termination is requested exactly once.
pub struct LifecycleOwner {
    pub handle: Option<u64>,
}

/// What a shutdown request does to the owner: it hands back the token
/// of the running backend, if any, and leaves the owner holding none.
pub open spec fn spec_shutdown(s: LifecycleOwner) -> (LifecycleOwner, Option<u64>) {
    (LifecycleOwner { handle: None }, s.handle)
}

impl LifecycleOwner {
    /// A backend is tracked as running.
    pub open spec fn is_running(self) -> bool {
        self.handle is Some
    }

    /// A fresh owner: nothing has been started.
    pub fn new() -> (r: Self)
        ensures
            !r.is_running(),
    {
        LifecycleOwner { handle: None }
    }

    /// Records a successful launch. Refused when a backend is already
    /// tracked: the supervisor never holds two at once.
    pub fn attach(&mut self, token: u64) -> (ok: bool)
        ensures
            ok == !old(self).is_running(),
            ok ==> final(self).handle == Some(token),
            !ok ==> *final(self) == *old(self),
    {
        match self.handle {
            Some(_) => false,
            None => {
                self.handle = Some(token);
                true
            },
        }
    }

    /// Requests termination: returns the token whose process the
    /// application must kill and reap, or `None` when nothing runs, in
    /// which case the call is a no-op. Afterwards nothing is tracked.
    pub fn shutdown(&mut self) -> (t: Option<u64>)
        ensures
            (*final(self), t) == spec_shutdown(*old(self)),
            !final(self).is_running(),
    {
        let t = match self.handle {
            Some(tok) => Some(tok),
            None => None,
        };
        self.handle = None;
        t
    }
}

/// Shutting down twice in sequence is safe: the second request finds
/// nothing to terminate and changes nothing.
pub proof fn lemma_shutdown_twice_noop(s: LifecycleOwner)
    ensures
        spec_shutdown(spec_shutdown(s).0).1 is None,
        spec_shutdown(spec_shutdown(s).0).0 == spec_shutdown(s).0,
{
}

/// Shutting down an owner that never started anything is safe: nothing
/// is terminated and nothing is tracked afterwards.
pub proof fn lemma_shutdown_never_started(s: LifecycleOwner)
    requires
        !s.is_running(),
    ensures
        spec_shutdown(s).1 is None,
        !spec_shutdown(s).0.is_running(),
{
}

} // verus!
