//! Declarative backoff parameters and the stateful generator that turns
//! them into a schedule of retry delays.
//!
//! All durations are integer nanosecond counts. The growth factor is a
//! fixed-point number in thousandths (`multiplier_milli == 1500` means a
//! factor of one and a half), so every schedule is computed exactly.

use vstd::prelude::*;

verus! {

/// Declarative parameters of an exponential backoff schedule, as they come
/// out of the configuration.
///
/// A value is well formed (`wf`) when the initial interval is positive, the
/// growth factor is at least one, and the cap is no smaller than the initial
/// interval.
#[derive(Clone, Copy, Debug, PartialEq, Eq, Structural)]
pub struct Backoff {
    /// Delay before the first retry, in nanoseconds.
    pub initial_interval: u64,
    /// Upper bound on any single delay, in nanoseconds.
    pub max_interval: u64,
    /// Total time budget: once this much time has elapsed the schedule
    /// gives up, in nanoseconds.
    pub duration: u64,
    /// Growth factor applied after each delay, in thousandths.
    pub multiplier_milli: u64,
}

impl Backoff {
    /// The invariant every backoff specification must satisfy.
    pub open spec fn wf(self) -> bool {
        &&& self.initial_interval > 0
        &&& self.multiplier_milli >= 1000
        &&& self.max_interval >= self.initial_interval
    }

    /// Starts a fresh schedule: the first delay is the initial interval.
    pub fn build(&self) -> (g: BackoffGenerator)
        ensures
            g.params == *self,
            g.current_interval == self.initial_interval,
            self.wf() ==> g.wf(),
    {
        BackoffGenerator { params: *self, current_interval: self.initial_interval }
    }
}

/// The delay that follows a delay of `cur`, under growth factor
/// `mult` (in thousandths) and cap `max`.
pub open spec fn next_current(cur: nat, mult: nat, max: nat) -> nat {
    let grown = (cur * mult) / 1000;
    if grown > max {
        max
    } else {
        grown
    }
}

/// A running backoff schedule: the parameters it was built from plus the
/// delay it will hand out next.
///
/// The generator does no waiting and reads no clock: the caller reports how
/// much wall-clock time has elapsed since the schedule began.
#[derive(Clone, Copy, Debug, PartialEq, Eq, Structural)]
pub struct BackoffGenerator {
    /// The specification this schedule was built from.
    pub params: Backoff,
    /// The delay the next call will hand out, in nanoseconds.
    pub current_interval: u64,
}

impl BackoffGenerator {
    /// The invariant the generator keeps between calls.
    pub open spec fn wf(self) -> bool {
        &&& self.params.wf()
        &&& self.params.initial_interval <= self.current_interval <= self.params.max_interval
    }

    /// Hands out the next delay, or `None` once the elapsed time has gone
    /// past the total budget.
    ///
    /// `elapsed` is the wall-clock time since the schedule began, in
    /// nanoseconds. While the budget holds, the call returns the current
    /// delay and grows it by the multiplier, capped at the maximum
    /// interval; the cap and the growth are applied to the same stored
    /// value, so a capped schedule stays capped.
    pub fn next_interval(&mut self, elapsed: u64) -> (r: Option<u64>)
        requires
            old(self).wf(),
        ensures
            final(self).wf(),
            final(self).params == old(self).params,
            elapsed > old(self).params.duration ==> r is None && *final(self) == *old(self),
            elapsed <= old(self).params.duration ==> {
                &&& r == Some(old(self).current_interval)
                &&& final(self).current_interval as nat == next_current(
                    old(self).current_interval as nat,
                    old(self).params.multiplier_milli as nat,
                    old(self).params.max_interval as nat,
                )
            },
    {
        if elapsed > self.params.duration {
            return None;
        }
        let out = self.current_interval;
        proof {
            assert((self.current_interval as nat) * (self.params.multiplier_milli as nat)
                <= (u64::MAX as nat) * (u64::MAX as nat)) by (nonlinear_arith)
                requires
                    self.current_interval as nat <= u64::MAX as nat,
                    self.params.multiplier_milli as nat <= u64::MAX as nat,
            ;
        }
        let grown: u128 = (self.current_interval as u128) * (self.params.multiplier_milli as u128)
            / 1000;
        proof {
            lemma_next_interval_nondecreasing(
                self.current_interval as nat,
                self.params.multiplier_milli as nat,
                self.params.max_interval as nat,
            );
        }
        if grown > self.params.max_interval as u128 {
            self.current_interval = self.params.max_interval;
        } else {
            self.current_interval = grown as u64;
        }
        Some(out)
    }
}

/// The delay a schedule built from `init`, `mult` and `max` hands out on
/// its call number `n`, counting from zero, while the time budget holds.
pub open spec fn nth_interval(init: nat, mult: nat, max: nat, n: nat) -> nat
    decreases n,
{
    if n == 0 {
        init
    } else {
        next_current(nth_interval(init, mult, max, (n - 1) as nat), mult, max)
    }
}

/// Law: with a growth factor of at least one, the delays of a schedule
/// form a non-decreasing sequence that never exceeds the cap.
pub proof fn lemma_schedule_nondecreasing(init: nat, mult: nat, max: nat, n: nat)
    requires
        mult >= 1000,
        0 < init <= max,
    ensures
        nth_interval(init, mult, max, n) <= nth_interval(init, mult, max, n + 1),
        nth_interval(init, mult, max, n) <= max,
    decreases n,
{
    if n == 0 {
        lemma_next_interval_nondecreasing(init, mult, max);
    } else {
        lemma_schedule_nondecreasing(init, mult, max, (n - 1) as nat);
        lemma_next_interval_nondecreasing(nth_interval(init, mult, max, n), mult, max);
    }
}

/// Law: while the growth factor is at least one and the current delay is
/// under the cap, the delay that follows is no smaller than the current one
/// and never exceeds the cap. Successive delays of a well-formed schedule
/// therefore form a non-decreasing sequence bounded by the maximum
/// interval.
pub proof fn lemma_next_interval_nondecreasing(cur: nat, mult: nat, max: nat)
    requires
        mult >= 1000,
        cur <= max,
    ensures
        cur <= next_current(cur, mult, max) <= max,
{
    assert(cur * mult >= cur * 1000) by (nonlinear_arith)
        requires
            mult >= 1000,
            cur >= 0,
    ;
    assert((cur * 1000) / 1000 == cur) by (nonlinear_arith);
    assert((cur * mult) / 1000 >= (cur * 1000) / 1000) by (nonlinear_arith)
        requires
            cur * mult >= cur * 1000,
    ;
}

} // verus!
