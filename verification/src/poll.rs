//! The polling discipline of the wait primitives: one strictly sequential,
//! bounded retry. The caller probes the page, reports what it saw and how
//! long it has waited, and is told whether to stop or to sleep and retry.
//! All times are milliseconds.

use vstd::prelude::*;

verus! {

/// Which condition a wait primitive polls for.
#[derive(Debug, Clone, Copy, PartialEq, Eq, Structural)]
pub enum Condition {
    Present,
    NotPresent,
    Visible,
    Editable,
    NotEditable,
}

/// What to do after a probe.
#[derive(Debug, Clone, Copy, PartialEq, Eq, Structural)]
pub enum PollStep {
    /// The condition held: the wait is over, with success.
    Succeed,
    /// The condition did not hold and the deadline has not passed: sleep
    /// for so many milliseconds, then probe again.
    Retry(u64),
    /// The condition did not hold and the deadline has passed.
    TimedOut,
}

/// A bounded poll: its deadline and the pause between two probes.
#[derive(Debug, Clone, Copy, PartialEq, Eq, Structural)]
pub struct Poll {
    timeout: u64,
    interval: u64,
}

/// The pause between two probes of a wait with the given timeout.
pub open spec fn interval_of(timeout: int) -> int {
    timeout / 3
}

/// The decision after a probe that ended `elapsed` ms into a wait.
pub open spec fn decide_spec(timeout: u64, elapsed: u64, holds: bool) -> PollStep {
    if holds {
        PollStep::Succeed
    } else if elapsed >= timeout {
        PollStep::TimedOut
    } else {
        PollStep::Retry((timeout / 3) as u64)
    }
}

/// Probe instants in which each probe comes at least `interval` after the
/// one before it, the first at or after the start of the wait.
pub open spec fn spaced(at: Seq<int>, interval: int) -> bool {
    &&& forall|k: int| 0 <= k < at.len() ==> 0 <= #[trigger] at[k]
    &&& forall|k: int| 0 <= k < at.len() - 1 ==> at[k] + interval <= #[trigger] at[k + 1]
}

impl Poll {
    /// The deadline.
    pub closed spec fn spec_timeout(&self) -> u64 {
        self.timeout
    }

    /// The pause between two probes.
    pub closed spec fn spec_interval(&self) -> u64 {
        self.interval
    }

    /// Validity: the pause is a third of the deadline.
    pub open spec fn wf(&self) -> bool {
        self.spec_interval() == interval_of(self.spec_timeout() as int)
    }

    /// A poll that gives up after `timeout` ms and pauses a third of that
    /// between probes.
    pub fn new(timeout: u64) -> (r: Poll)
        ensures
            r.wf(),
            r.spec_timeout() == timeout,
            r.spec_interval() == interval_of(timeout as int),
    {
        Poll { timeout, interval: timeout / 3 }
    }

    /// The deadline.
    pub fn timeout(&self) -> (r: u64)
        ensures
            r == self.spec_timeout(),
    {
        self.timeout
    }

    /// The pause between two probes.
    pub fn interval(&self) -> (r: u64)
        ensures
            r == self.spec_interval(),
    {
        self.interval
    }

    /// Decides what follows a probe that ended `elapsed` ms into the wait
    /// and found the condition to hold or not.
    pub fn decide(&self, elapsed: u64, holds: bool) -> (r: PollStep)
        requires
            self.wf(),
        ensures
            r == decide_spec(self.spec_timeout(), elapsed, holds),
    {
        if holds {
            PollStep::Succeed
        } else if elapsed >= self.timeout {
            PollStep::TimedOut
        } else {
            PollStep::Retry(self.interval)
        }
    }
}

/// A probe that finds the condition to hold ends the wait with success at
/// once, however long the wait has lasted; a wait never succeeds otherwise.
pub proof fn lemma_success_at_first_holding_probe(timeout: u64, elapsed: u64, holds: bool)
    ensures
        decide_spec(timeout, elapsed, holds) == PollStep::Succeed <==> holds,
{
}

/// A wait whose condition does not hold times out exactly when the deadline
/// has passed, never before; until then it retries after a third of the
/// timeout.
pub proof fn lemma_timeout_only_at_deadline(timeout: u64, elapsed: u64)
    ensures
        decide_spec(timeout, elapsed, false) == PollStep::TimedOut <==> elapsed >= timeout,
        elapsed < timeout ==> decide_spec(timeout, elapsed, false) == PollStep::Retry(
            interval_of(timeout as int) as u64,
        ),
{
}

/// The probes that are answered with a retry are few: they all lie before
/// the deadline and a third of the timeout apart, so there are at most three
/// where the timeout is a multiple of three, at most four where it is at
/// least nine, and at most five otherwise.
pub proof fn lemma_retries_bounded(timeout: u64, at: Seq<int>)
    requires
        timeout >= 3,
        spaced(at, interval_of(timeout as int)),
        forall|k: int|
            0 <= k < at.len() ==> at[k] <= u64::MAX && #[trigger] decide_spec(
                timeout,
                at[k] as u64,
                false,
            ) is Retry,
    ensures
        at.len() <= 5,
        timeout >= 9 ==> at.len() <= 4,
        timeout % 3 == 0 ==> at.len() <= 3,
{
    let q = interval_of(timeout as int);
    let n = at.len() as int;
    if n > 0 {
        lemma_spaced_lower_bound(at, q, n - 1);
        assert(decide_spec(timeout, at[n - 1] as u64, false) is Retry);
        assert(at[n - 1] < timeout);
        assert((n - 1) * q < timeout);
        assert(timeout == 3 * q + timeout % 3);
        assert(q >= 1);
        assert(n <= 5) by (nonlinear_arith)
            requires
                (n - 1) * q < 3 * q + 2,
                q >= 1,
        ;
        if timeout >= 9 {
            assert(n <= 4) by (nonlinear_arith)
                requires
                    (n - 1) * q < 3 * q + 2,
                    q >= 3,
            ;
        }
        if timeout % 3 == 0 {
            assert(n <= 3) by (nonlinear_arith)
                requires
                    (n - 1) * q < 3 * q,
                    q >= 1,
            ;
        }
    }
}

/// Probe `k` of spaced probes comes no earlier than `k` intervals into the
/// wait.
proof fn lemma_spaced_lower_bound(at: Seq<int>, interval: int, k: int)
    requires
        spaced(at, interval),
        0 <= k < at.len(),
    ensures
        k * interval <= at[k],
    decreases k,
{
    if k > 0 {
        lemma_spaced_lower_bound(at, interval, k - 1);
        assert(at[k - 1] + interval <= at[k - 1 + 1]);
        assert(k * interval == (k - 1) * interval + interval) by (nonlinear_arith);
    }
}

} // verus!
