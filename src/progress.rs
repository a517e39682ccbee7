use vstd::prelude::*;

verus! {

/// Number of steps a seed may go without improving before it stops.
pub const FRONTIER_TIME_LIMIT: i32 = 25;

/// Where a seed stands in its ascent: the number of steps taken, the step at
/// which its score last improved by the required ratio, and whether it has
/// stopped.
#[derive(Debug, Clone, Copy, PartialEq, Eq, Structural)]
pub struct Progress {
    pub time: i32,
    pub frontier_time: i32,
    pub done: bool,
}

impl Progress {
    /// The last improvement lies between the start and the current step.
    pub open spec fn wf(self) -> bool {
        0 <= self.frontier_time <= self.time
    }

    /// Steps taken since the last improvement.
    pub open spec fn stalled(self) -> int {
        self.time - self.frontier_time
    }

    /// The progress after one more step. `improved` tells whether the step's
    /// score beat the frontier by the required ratio, `stationary` whether the
    /// gradient fell below the critical-point threshold. The seed stops when it
    /// is stationary or has gone more than `limit` steps without improving.
    pub open spec fn advanced(self, improved: bool, stationary: bool, limit: i32) -> Progress {
        let time = self.time + 1;
        let frontier_time = if improved {
            time
        } else {
            self.frontier_time as int
        };
        Progress {
            time: time as i32,
            frontier_time: frontier_time as i32,
            done: stationary || time - frontier_time > limit,
        }
    }

    /// A seed that has taken no step.
    pub fn new() -> (r: Progress)
        ensures
            r == (Progress { time: 0, frontier_time: 0, done: false }),
            r.wf(),
    {
        Progress { time: 0, frontier_time: 0, done: false }
    }

    /// One more step; see `advanced`.
    pub fn advance(&self, improved: bool, stationary: bool, limit: i32) -> (r: Progress)
        requires
            self.wf(),
            self.time < i32::MAX,
        ensures
            r == self.advanced(improved, stationary, limit),
            r.wf(),
    {
        let time = self.time + 1;
        let frontier_time = if improved {
            time
        } else {
            self.frontier_time
        };
        Progress { time, frontier_time, done: stationary || time - frontier_time > limit }
    }
}

/// The progress after `n` steps that neither improve nor reach a critical
/// point, where a stopped seed takes no further step.
pub open spec fn run_stalled(p: Progress, n: nat, limit: i32) -> Progress
    decreases n,
{
    if n == 0 || p.done {
        p
    } else {
        run_stalled(p.advanced(false, false, limit), (n - 1) as nat, limit)
    }
}

proof fn lemma_run_stalled_stops(p: Progress, n: nat, limit: i32)
    requires
        p.wf(),
        p.time + n <= i32::MAX,
        p.stalled() + n > limit,
        p.done || n > 0,
    ensures
        run_stalled(p, n, limit).done,
    decreases n,
{
    if !p.done {
        let q = p.advanced(false, false, limit);
        lemma_run_stalled_stops(q, (n - 1) as nat, limit);
    }
}

/// A seed whose score fails to improve for `limit + 1` consecutive steps has
/// stopped, whatever its progress before.
pub proof fn lemma_stagnation_stops(p: Progress, limit: i32)
    requires
        p.wf(),
        0 <= limit,
        p.time + limit + 1 <= i32::MAX,
    ensures
        run_stalled(p, (limit + 1) as nat, limit).done,
{
    lemma_run_stalled_stops(p, (limit + 1) as nat, limit);
}

/// Once stopped, a seed stays as it is.
pub proof fn lemma_stopped_stays(p: Progress, n: nat, limit: i32)
    requires
        p.done,
    ensures
        run_stalled(p, n, limit) == p,
{
}

} // verus!
