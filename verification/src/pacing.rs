//! The coordinator's pacing state: the backoff interval it will apply on the
//! next failure, together with the immutable configuration it was built from.
//!
//! All intervals are plain `u64` counts of one fixed time unit chosen by the
//! caller (for instance nanoseconds); the state machine itself never touches
//! a clock.

use vstd::prelude::*;
use crate::Outcome;

verus! {

/// The smaller of two integers.
pub open spec fn min_int(a: int, b: int) -> int {
    if a <= b {
        a
    } else {
        b
    }
}

/// The backoff interval that one more failure produces: the current interval
/// doubled, saturating at the cap.
pub open spec fn next_backoff(current: int, cap: int) -> int {
    min_int(2 * current, cap)
}

/// Pacing state owned by the coordinator.
#[derive(Clone, Copy, PartialEq, Eq, Structural, Debug)]
pub struct Pacing {
    /// Backoff interval used right after construction and after every success.
    pub initial_interval: u64,
    /// Upper bound the backoff interval never exceeds.
    pub max_interval: u64,
    /// Delay imposed between successive permits after a success.
    pub steady_pacing: u64,
    /// The backoff delay to apply on the next failure.
    pub current_interval: u64,
}

impl Pacing {
    /// Well-formedness. Under a sanely ordered configuration the backoff
    /// interval stays between its two bounds; under an inverted one
    /// (`initial_interval > max_interval`, which construction does not
    /// reject) it is either still the initial interval or already clamped.
    pub open spec fn wf(self) -> bool {
        &&& self.initial_interval <= self.max_interval ==> self.initial_interval
            <= self.current_interval && self.current_interval <= self.max_interval
        &&& self.current_interval == self.initial_interval || self.current_interval
            <= self.max_interval
    }

    /// The two states share one configuration.
    pub open spec fn same_config(self, other: Pacing) -> bool {
        &&& self.initial_interval == other.initial_interval
        &&& self.max_interval == other.max_interval
        &&& self.steady_pacing == other.steady_pacing
    }

    /// The state after a reported success: the backoff interval resets.
    pub open spec fn after_success(self) -> Pacing {
        Pacing { current_interval: self.initial_interval, ..self }
    }

    /// The state after a reported failure: the backoff interval doubles,
    /// saturating at the cap.
    pub open spec fn after_fail(self) -> Pacing {
        Pacing {
            current_interval: next_backoff(
                self.current_interval as int,
                self.max_interval as int,
            ) as u64,
            ..self
        }
    }

    /// Fresh pacing state: the backoff interval starts at `initial_interval`.
    pub fn new(initial_interval: u64, max_interval: u64, steady_pacing: u64) -> (p: Pacing)
        ensures
            p == (Pacing { initial_interval, max_interval, steady_pacing,
                current_interval: initial_interval }),
            p.wf(),
    {
        Pacing { initial_interval, max_interval, steady_pacing, current_interval: initial_interval }
    }

    /// A success resets the backoff interval; the delay before the next
    /// permit is the steady pacing.
    pub fn on_success(&mut self) -> (delay: u64)
        ensures
            *final(self) == old(self).after_success(),
            delay == old(self).steady_pacing,
            final(self).wf(),
    {
        self.current_interval = self.initial_interval;
        self.steady_pacing
    }

    /// A failure doubles the backoff interval, saturating at the cap; the
    /// delay before the next permit is the new interval.
    pub fn on_fail(&mut self) -> (delay: u64)
        requires
            old(self).wf(),
        ensures
            *final(self) == old(self).after_fail(),
            delay == final(self).current_interval,
            final(self).current_interval == next_backoff(
                old(self).current_interval as int,
                old(self).max_interval as int,
            ),
            final(self).wf(),
    {
        if self.current_interval <= self.max_interval / 2 {
            self.current_interval = 2 * self.current_interval;
        } else {
            self.current_interval = self.max_interval;
        }
        self.current_interval
    }

    /// One cycle's pacing decision, from what became of the granted permit:
    /// a reported outcome adjusts the interval and yields the delay to apply
    /// before the next permit; an abandoned permit (`None`) changes nothing
    /// and yields no delay.
    pub fn on_outcome(&mut self, outcome: Option<Outcome>) -> (delay: u64)
        requires
            old(self).wf(),
        ensures
            final(self).wf(),
            outcome == Some(Outcome::Success) ==> *final(self) == old(self).after_success()
                && delay == old(self).steady_pacing,
            outcome == Some(Outcome::Fail) ==> *final(self) == old(self).after_fail()
                && delay == final(self).current_interval,
            outcome is None ==> *final(self) == *old(self) && delay == 0,
    {
        match outcome {
            Some(Outcome::Success) => self.on_success(),
            Some(Outcome::Fail) => self.on_fail(),
            None => 0,
        }
    }
}

/// Two to the power `k`.
pub open spec fn pow2(k: nat) -> int
    decreases k,
{
    if k == 0 {
        1
    } else {
        2 * pow2((k - 1) as nat)
    }
}

/// The backoff interval after `k` consecutive failures with no intervening
/// success, starting from `initial`.
pub open spec fn backoff_after(initial: int, cap: int, k: nat) -> int
    decreases k,
{
    if k == 0 {
        initial
    } else {
        next_backoff(backoff_after(initial, cap, (k - 1) as nat), cap)
    }
}

/// Backoff growth: starting from `initial`, the `k`-th consecutive failure
/// delays `initial * 2^k`, clamped to `cap` — so the delays of failures
/// `1, 2, 3, ...` are `initial*2, initial*4, initial*8, ...`, each saturating
/// at the cap.
pub proof fn lemma_backoff_growth(initial: int, cap: int, k: nat)
    requires
        0 <= initial,
        0 <= cap,
        1 <= k,
    ensures
        backoff_after(initial, cap, k) == min_int(initial * pow2(k as nat), cap),
    decreases k,
{
    if k == 1 {
        assert(pow2(0) == 1);
        assert(pow2(1) == 2);
        assert(backoff_after(initial, cap, 0) == initial);
        assert(backoff_after(initial, cap, 1) == next_backoff(initial, cap));
    } else {
        lemma_backoff_growth(initial, cap, (k - 1) as nat);
        let prev = min_int(initial * pow2((k - 1) as nat), cap);
        assert(backoff_after(initial, cap, k) == min_int(2 * prev, cap));
        assert(2 * (initial * pow2((k - 1) as nat)) == initial * pow2(k)) by {
            assert(pow2(k) == 2 * pow2((k - 1) as nat));
            assert(2 * (initial * pow2((k - 1) as nat)) == initial * (2 * pow2((k - 1) as nat)))
                by (nonlinear_arith);
        }
        if initial * pow2((k - 1) as nat) <= cap {
            assert(min_int(2 * prev, cap) == min_int(initial * pow2(k), cap));
        } else {
            assert(prev == cap);
            assert(initial * pow2(k) >= 2 * (initial * pow2((k - 1) as nat)));
            assert(min_int(2 * cap, cap) == cap);
            assert(initial * pow2(k) > cap);
        }
    }
}

/// Reset on success: a success immediately after any sequence of failures
/// brings the state back to baseline, so the next failure's delay is exactly
/// the doubled initial interval, clamped to the cap.
pub proof fn lemma_reset_on_success(p: Pacing)
    ensures
        p.after_success().current_interval == p.initial_interval,
        p.after_success().after_fail().current_interval == min_int(
            2 * p.initial_interval,
            p.max_interval as int,
        ),
{
}

/// Steady pacing: the delay after a success is always the configured steady
/// pacing, and the state a success leaves behind depends on the configuration
/// alone — two states with one configuration but any two failure histories
/// agree on both.
pub proof fn lemma_steady_pacing(p: Pacing, q: Pacing)
    requires
        p.same_config(q),
    ensures
        p.after_success().current_interval == p.initial_interval,
        p.after_success() == q.after_success(),
{
}

} // verus!
