use vstd::prelude::*;

verus! {

/// How many of a stream's lines are forwarded to the diagnostic log
/// before the forwarding task stops reading: enough for early startup
/// diagnostics, a hard bound against a noisy backend.
pub const LINE_CAP: usize = 50;

/// The forwarding budget of one captured stream: how many more lines
/// may be forwarded. The application's forwarding task asks before each
/// line and stops, closing its stream, at the first refusal, so the
/// task ends after finitely many lines whatever the backend produces.
pub struct LineBudget {
    pub remaining: usize,
}

impl LineBudget {
    /// A fresh budget of `cap` lines.
    pub fn new(cap: usize) -> (r: Self)
        ensures
            r.remaining == cap,
    {
        LineBudget { remaining: cap }
    }

    /// Asks to forward one more line: allowed exactly while the budget
    /// lasts, and each grant spends one line of it.
    pub fn grant(&mut self) -> (b: bool)
        ensures
            b == (old(self).remaining > 0),
            final(self).remaining == if b {
                (old(self).remaining - 1) as usize
            } else {
                0usize
            },
    {
        if self.remaining > 0 {
            self.remaining = self.remaining - 1;
            true
        } else {
            false
        }
    }
}

/// Forwards a bounded prefix of a stream's lines: exactly the first
/// `cap` lines when the stream has that many, all of them when it is
/// shorter. The rest of the stream is left unread.
pub fn forward_capped(lines: &Vec<String>, cap: usize) -> (out: Vec<String>)
    ensures
        out@.len() == if cap <= lines@.len() {
            cap as int
        } else {
            lines@.len() as int
        },
        out@ == lines@.take(out@.len() as int),
{
    let mut budget = LineBudget::new(cap);
    let mut out: Vec<String> = Vec::new();
    let n = lines.len();
    let mut i: usize = 0;
    while i < n && budget.remaining > 0
        invariant
            i <= n,
            i <= cap,
            n == lines@.len(),
            budget.remaining == (cap - i) as usize,
            out@ == lines@.take(i as int),
        decreases n - i,
    {
        let _granted = budget.grant();
        out.push(lines[i].clone());
        i = i + 1;
    }
    out
}

} // verus!
