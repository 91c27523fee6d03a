use vstd::prelude::*;

verus! {

/// How long one poll interval lasts: the pause between two connection
/// attempts.
pub const POLL_INTERVAL_MS: u64 = 100;

/// How long startup waits for the backend before proceeding degraded.
pub const STARTUP_TIMEOUT_MS: u64 = 15000;

/// The local endpoint whose bare TCP accept is the backend's sole
/// readiness signal.
pub fn backend_addr() -> (r: String)
    ensures
        r@ == "127.0.0.1:5000"@,
{
    String::from_str("127.0.0.1:5000")
}

/// The verdict after one connection attempt: the backend accepted, the
/// deadline passed without an accept, or another attempt is due after
/// the poll interval.
#[derive(Debug, PartialEq, Eq, Structural)]
pub enum ProbeVerdict {
    Ready,
    Continue,
    TimedOut,
}

/// The prober's state between attempts: how many polls the schedule
/// allows and how many have been made. The application performs the
/// actual connection attempt and the sleep; the deadline decision is
/// made here.
pub struct ProbeState {
    pub polls_done: u64,
    pub max_polls: u64,
}

/// How many polls a deadline allows at a fixed interval: one per full
/// interval that fits, and one more for a remainder, so that polling
/// never outlives the deadline by more than one interval.
pub fn max_polls(timeout_ms: u64, interval_ms: u64) -> (r: u64)
    requires
        interval_ms > 0,
    ensures
        r == timeout_ms / interval_ms + if timeout_ms % interval_ms == 0 {
            0int
        } else {
            1int
        },
{
    if timeout_ms % interval_ms == 0 {
        timeout_ms / interval_ms
    } else {
        proof {
            assert(interval_ms >= 2);
            assert(timeout_ms / interval_ms < u64::MAX) by (nonlinear_arith)
                requires
                    interval_ms >= 2,
            ;
        }
        timeout_ms / interval_ms + 1
    }
}

impl ProbeState {
    /// A fresh prober that will make at most `max_polls` attempts.
    pub fn new(max_polls: u64) -> (r: Self)
        ensures
            r.polls_done == 0,
            r.max_polls == max_polls,
    {
        ProbeState { polls_done: 0, max_polls }
    }

    /// Records one connection attempt and decides what follows: ready on
    /// a successful connection, timed out when the last allowed attempt
    /// failed, another attempt otherwise. The deadline is the only way
    /// the poll loop ends without a connection.
    pub fn step(&mut self, connected: bool) -> (v: ProbeVerdict)
        requires
            old(self).polls_done < old(self).max_polls,
        ensures
            final(self).max_polls == old(self).max_polls,
            final(self).polls_done == old(self).polls_done + 1,
            v == (if connected {
                ProbeVerdict::Ready
            } else if old(self).polls_done + 1 == old(self).max_polls {
                ProbeVerdict::TimedOut
            } else {
                ProbeVerdict::Continue
            }),
    {
        self.polls_done = self.polls_done + 1;
        if connected {
            ProbeVerdict::Ready
        } else if self.polls_done == self.max_polls {
            ProbeVerdict::TimedOut
        } else {
            ProbeVerdict::Continue
        }
    }
}

/// Holds when `ready` and `polls` describe a finished probe over the
/// attempt outcomes `attempts` (one entry per scheduled poll): ready
/// exactly when some attempt connected, stopping at the first success,
/// and exhausting the whole schedule otherwise.
pub open spec fn probe_outcome(attempts: Seq<bool>, ready: bool, polls: usize) -> bool {
    &&& ready <==> exists|i: int| 0 <= i < attempts.len() && attempts[i]
    &&& ready ==> 1 <= polls <= attempts.len() && attempts[polls - 1] && (forall|j: int|
        0 <= j < polls - 1 ==> !attempts[j])
    &&& !ready ==> polls == attempts.len()
}

/// Runs a whole probe schedule over the given attempt outcomes: polls
/// until one connects or the schedule is exhausted. Never retries
/// beyond the schedule, never stops before it without a connection.
pub fn probe_run(attempts: &Vec<bool>) -> (r: (bool, usize))
    ensures
        probe_outcome(attempts@, r.0, r.1),
{
    let n = attempts.len();
    let mut i: usize = 0;
    while i < n
        invariant
            i <= n,
            n == attempts@.len(),
            forall|j: int| 0 <= j < i ==> !attempts@[j],
        decreases n - i,
    {
        if attempts[i] {
            return (true, i + 1);
        }
        i = i + 1;
    }
    (false, n)
}

/// A listener that accepts from poll `d` on, with `d` inside the
/// schedule, is reported ready after at most `d + 1` polls: within one
/// poll interval of the delay.
pub proof fn lemma_probe_ready_within_delay(attempts: Seq<bool>, ready: bool, polls: usize, d: int)
    requires
        probe_outcome(attempts, ready, polls),
        0 <= d < attempts.len(),
        forall|i: int| d <= i < attempts.len() ==> attempts[i],
    ensures
        ready,
        polls <= d + 1,
{
    assert(attempts[d]);
    if polls > d + 1 {
        assert(!attempts[d]);
    }
}

/// A listener that never accepts makes the probe report not-ready after
/// exactly the configured number of polls: at the deadline, not before
/// it and not after it.
pub proof fn lemma_probe_timeout_exact(attempts: Seq<bool>, ready: bool, polls: usize)
    requires
        probe_outcome(attempts, ready, polls),
        forall|i: int| 0 <= i < attempts.len() ==> !attempts[i],
    ensures
        !ready,
        polls == attempts.len(),
{
    if ready {
        let i = choose|i: int| 0 <= i < attempts.len() && attempts[i];
        assert(!attempts[i]);
    }
}

} // verus!
