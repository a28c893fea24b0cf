//! A cadence checker: it turns a clock that is polled at any rate into
//! ticks that come at most once per interval.

use vstd::prelude::*;
use vstd::arithmetic::div_mod::lemma_div_is_ordered;

verus! {

/// What an [`IntervalChecker`] is, as a mathematical value.
pub struct IntervalModel {
    /// The number of the last interval in which a poll fired; 0 at the
    /// start.
    pub last_interval: nat,
    /// The length of an interval, in milliseconds. Never 0.
    pub interval_ms: nat,
}

impl IntervalModel {
    /// The number of the interval that `time_ms` falls into.
    pub open spec fn interval_of(self, time_ms: nat) -> nat {
        time_ms / self.interval_ms
    }

    /// Whether a poll at `time_ms` fires: the time lies in a later interval
    /// than the last one that fired.
    pub open spec fn fires(self, time_ms: nat) -> bool {
        self.interval_of(time_ms) > self.last_interval
    }

    /// The checker after a poll at `time_ms`.
    pub open spec fn after_poll(self, time_ms: nat) -> IntervalModel {
        if self.fires(time_ms) {
            IntervalModel { last_interval: self.interval_of(time_ms), ..self }
        } else {
            self
        }
    }

    /// The checker after the polls `times`, in order.
    pub open spec fn after_polls(self, times: Seq<nat>) -> IntervalModel
        decreases times.len(),
    {
        if times.len() == 0 {
            self
        } else {
            self.after_polls(times.drop_last()).after_poll(times.last())
        }
    }

    /// How many of the polls `times`, made in order, fire.
    pub open spec fn fire_count(self, times: Seq<nat>) -> nat
        decreases times.len(),
    {
        if times.len() == 0 {
            0
        } else {
            let earlier = times.drop_last();
            let fired: nat = if self.after_polls(earlier).fires(times.last()) {
                1
            } else {
                0
            };
            self.fire_count(earlier) + fired
        }
    }
}

/// Fires at most once per interval of `interval_ms` milliseconds, however
/// often it is polled.
pub struct IntervalChecker {
    last_interval: u64,
    interval_ms: u64,
}

impl View for IntervalChecker {
    type V = IntervalModel;

    closed spec fn view(&self) -> IntervalModel {
        IntervalModel {
            last_interval: self.last_interval as nat,
            interval_ms: self.interval_ms as nat,
        }
    }
}

impl IntervalChecker {
    #[verifier::type_invariant]
    spec fn positive_interval(self) -> bool {
        self.interval_ms > 0
    }

    /// A checker for the given cadence. The first interval, from 0 up to
    /// `interval_ms`, counts as already served.
    pub fn new(interval_ms: u64) -> (checker: IntervalChecker)
        requires
            interval_ms > 0,
        ensures
            checker@ == (IntervalModel { last_interval: 0, interval_ms: interval_ms as nat }),
    {
        IntervalChecker { last_interval: 0, interval_ms }
    }

    /// Polls the checker at `time_ms`, the time elapsed so far. It fires
    /// when `time_ms` lies in a later interval than the last poll that fired.
    pub fn should_run(&mut self, time_ms: u64) -> (run: bool)
        ensures
            run == old(self)@.fires(time_ms as nat),
            final(self)@ == old(self)@.after_poll(time_ms as nat),
        no_unwind
    {
        proof {
            use_type_invariant(&*self);
        }
        let current_interval: u64 = time_ms / self.interval_ms;
        if current_interval > self.last_interval {
            self.last_interval = current_interval;
            true
        } else {
            false
        }
    }

    /// The cadence, in milliseconds.
    pub fn interval_ms(&self) -> (ms: u64)
        ensures
            ms == self@.interval_ms,
            ms > 0,
    {
        proof {
            use_type_invariant(self);
        }
        self.interval_ms
    }
}

/// Polls within one interval fire at most once: after a poll at `first`, a
/// poll at `second` that lies in the same interval, or in an earlier one,
/// does not fire, whether the first one fired or not.
pub proof fn lemma_one_fire_per_interval(checker: IntervalModel, first: nat, second: nat)
    requires
        checker.interval_ms > 0,
        checker.interval_of(second) <= checker.interval_of(first),
    ensures
        !checker.after_poll(first).fires(second),
        checker.after_poll(first).after_poll(second) == checker.after_poll(first),
{
}

/// No poll fires before the first interval has passed.
pub proof fn lemma_quiet_before_first_interval(checker: IntervalModel, time_ms: nat)
    requires
        checker.interval_ms > 0,
        time_ms < checker.interval_ms,
    ensures
        !checker.fires(time_ms),
        checker.after_poll(time_ms) == checker,
{
    assert(time_ms / checker.interval_ms == 0) by (nonlinear_arith)
        requires
            time_ms < checker.interval_ms,
    ;
}

/// Every poll that fires moves the checker on by at least one interval, and
/// the checker never runs ahead of the clock. So of any polls made at times
/// up to `horizon`, in any order and at any rate, at most
/// `horizon / interval_ms` fire.
pub proof fn lemma_fire_count_bounded(checker: IntervalModel, times: Seq<nat>, horizon: nat)
    requires
        checker.interval_ms > 0,
        forall|i: int| 0 <= i < times.len() ==> times[i] <= horizon,
    ensures
        ({
            let after = checker.after_polls(times);
            &&& after.interval_ms == checker.interval_ms
            &&& checker.last_interval + checker.fire_count(times) <= after.last_interval
            &&& after.last_interval <= checker.last_interval || after.last_interval
                <= checker.interval_of(horizon)
            &&& checker.fire_count(times) <= checker.interval_of(horizon)
        }),
    decreases times.len(),
{
    if times.len() > 0 {
        let earlier = times.drop_last();
        lemma_fire_count_bounded(checker, earlier, horizon);
        lemma_div_is_ordered(times.last() as int, horizon as int, checker.interval_ms as int);
    }
}

} // verus!
