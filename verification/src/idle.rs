//! The idle-accumulation state machine.
//!
//! Once per tick the driver reports whether the host showed activity
//! (network traffic or active sessions). The machine counts consecutive
//! idle ticks; when the count reaches the configured threshold it asks
//! the driver to invoke the power action, and the action's outcome
//! decides whether the count restarts.

use vstd::prelude::*;
use vstd::arithmetic::div_mod::{
    lemma_add_mod_noop, lemma_mod_bound, lemma_mod_self_0, lemma_small_mod,
};

use crate::bridge::ActionOutcome;

verus! {

/// What the machine asks the driver to do after a tick.
#[derive(Clone, Copy, Debug, PartialEq, Eq, Structural)]
pub enum TickDecision {
    /// The host is in use, or the idle span is still short: sleep and
    /// tick again.
    NoAction,
    /// The idle span has reached the threshold: invoke the power action.
    InvokeAction,
}

/// The counter after one idle tick: it grows by one and saturates at the
/// threshold, so a tick whose action failed leaves the machine ready to
/// re-attempt without ever exceeding the threshold.
pub open spec fn next_idle_counter(counter: int, threshold: int) -> int {
    if counter < threshold {
        counter + 1
    } else {
        counter
    }
}

/// Whether an idle tick starting from `counter` reaches the threshold,
/// so that the power action is due. A threshold of zero is met by the
/// very first idle tick.
pub open spec fn action_due(counter: int, threshold: int) -> bool {
    next_idle_counter(counter, threshold) >= threshold
}

/// Counts consecutive idle ticks against a fixed threshold.
/// `counter == 0` means the host was active on the last tick (or an
/// action just succeeded); `counter == n` means `n` consecutive idle
/// ticks have passed.
pub struct IdleStateMachine {
    pub counter: u8,
    pub threshold: u8,
}

impl IdleStateMachine {
    /// The counter never exceeds the threshold.
    pub open spec fn wf(self) -> bool {
        self.counter <= self.threshold
    }

    /// A fresh machine: no idle ticks seen yet.
    pub fn new(threshold: u8) -> (machine: Self)
        ensures
            machine.counter == 0,
            machine.threshold == threshold,
            machine.wf(),
    {
        IdleStateMachine { counter: 0, threshold }
    }

    /// One tick. Activity clears the counter at once; an idle tick
    /// advances it and decides whether the power action is due.
    pub fn tick(&mut self, activity: bool) -> (decision: TickDecision)
        requires
            old(self).wf(),
        ensures
            final(self).wf(),
            final(self).threshold == old(self).threshold,
            activity ==> final(self).counter == 0 && decision == TickDecision::NoAction,
            !activity ==> final(self).counter == next_idle_counter(
                old(self).counter as int,
                old(self).threshold as int,
            ),
            !activity ==> (decision == TickDecision::InvokeAction <==> action_due(
                old(self).counter as int,
                old(self).threshold as int,
            )),
    {
        if activity {
            self.counter = 0;
            return TickDecision::NoAction;
        }
        if self.counter < self.threshold {
            self.counter = self.counter + 1;
        }
        if self.counter >= self.threshold {
            TickDecision::InvokeAction
        } else {
            TickDecision::NoAction
        }
    }

    /// Fold the power action's outcome back into the counter: a
    /// successful or already-underway transition restarts the idle
    /// accumulation; a failure leaves the counter where it was, so the
    /// next tick re-attempts.
    pub fn apply_action_outcome(&mut self, outcome: &ActionOutcome)
        ensures
            final(self).threshold == old(self).threshold,
            (outcome is Suspended || outcome is AlreadyInProgress) ==> final(self).counter == 0,
            outcome is Failed ==> final(self).counter == old(self).counter,
            old(self).wf() ==> final(self).wf(),
    {
        match outcome {
            ActionOutcome::Suspended => {
                self.counter = 0;
            },
            ActionOutcome::AlreadyInProgress => {
                self.counter = 0;
            },
            ActionOutcome::Failed(_) => {},
        }
    }
}

/// The counter after `ticks` consecutive idle ticks, starting from zero,
/// when every invoked action succeeds (each invocation resets the count).
pub open spec fn idle_run_counter(threshold: int, ticks: nat) -> int
    decreases ticks,
{
    if ticks == 0 {
        0
    } else {
        let before = idle_run_counter(threshold, (ticks - 1) as nat);
        if action_due(before, threshold) {
            0
        } else {
            next_idle_counter(before, threshold)
        }
    }
}

/// Whether the action is invoked on idle tick number `tick` (counted
/// from one) of such a run.
pub open spec fn idle_run_invokes(threshold: int, tick: nat) -> bool
    recommends
        tick >= 1,
{
    action_due(idle_run_counter(threshold, (tick - 1) as nat), threshold)
}

/// Across a run of consecutive idle ticks with a positive threshold `t`
/// and successful actions, the counter after `k` ticks is `k % t`.
pub proof fn lemma_idle_run_counter_mod(threshold: int, ticks: nat)
    requires
        threshold >= 1,
    ensures
        idle_run_counter(threshold, ticks) == (ticks as int) % threshold,
    decreases ticks,
{
    if ticks == 0 {
        lemma_small_mod(0, threshold as nat);
    } else {
        lemma_idle_run_counter_mod(threshold, (ticks - 1) as nat);
        let before = idle_run_counter(threshold, (ticks - 1) as nat);
        lemma_mod_bound(ticks - 1, threshold);
        lemma_add_mod_noop(ticks - 1, 1, threshold);
        if threshold == 1 {
            lemma_mod_self_0(threshold);
            lemma_small_mod(0, threshold as nat);
        } else {
            lemma_small_mod(1, threshold as nat);
            if before == threshold - 1 {
                lemma_mod_self_0(threshold);
            } else {
                lemma_small_mod((before + 1) as nat, threshold as nat);
            }
        }
    }
}

/// The action is invoked exactly once per `threshold` consecutive idle
/// ticks: on tick numbers that are multiples of the threshold, and on no
/// others.
pub proof fn lemma_action_period(threshold: int, tick: nat)
    requires
        threshold >= 1,
        tick >= 1,
    ensures
        idle_run_invokes(threshold, tick) <==> (tick as int) % threshold == 0,
{
    lemma_idle_run_counter_mod(threshold, (tick - 1) as nat);
    let before = idle_run_counter(threshold, (tick - 1) as nat);
    lemma_mod_bound(tick - 1, threshold);
    lemma_add_mod_noop(tick - 1, 1, threshold);
    if threshold == 1 {
        lemma_mod_self_0(threshold);
        lemma_small_mod(0, threshold as nat);
    } else {
        lemma_small_mod(1, threshold as nat);
        if before == threshold - 1 {
            lemma_mod_self_0(threshold);
        } else {
            lemma_small_mod((before + 1) as nat, threshold as nat);
            lemma_mod_bound(tick as int, threshold);
        }
    }
}

/// With a threshold of zero, every idle tick invokes the action and the
/// counter stays at zero.
pub proof fn lemma_zero_threshold_always_invokes(tick: nat)
    requires
        tick >= 1,
    ensures
        idle_run_invokes(0, tick),
        idle_run_counter(0, tick) == 0,
    decreases tick,
{
    if tick > 1 {
        lemma_zero_threshold_always_invokes((tick - 1) as nat);
    }
}

} // verus!
