use idlewatch::bridge::ActionOutcome;
use idlewatch::idle::IdleStateMachine;
use idlewatch::idle::TickDecision;

/// Runs the given activity pattern, answering every invoked action with
/// a success, and returns the ticks (counted from one) on which the
/// action was invoked.
fn run_pattern(threshold: u8, pattern: &[bool]) -> Vec<usize> {
    let mut machine = IdleStateMachine::new(threshold);
    let mut invocations = Vec::new();
    for (index, &activity) in pattern.iter().enumerate() {
        if machine.tick(activity) == TickDecision::InvokeAction {
            invocations.push(index + 1);
            machine.apply_action_outcome(&ActionOutcome::Suspended);
        }
    }
    invocations
}

#[test]
fn three_idle_ticks_invoke_once_on_the_third() {
    let invocations = run_pattern(3, &[false, false, false]);
    assert_eq!(invocations, vec![3]);
}

#[test]
fn activity_in_between_restarts_the_count() {
    let invocations = run_pattern(3, &[false, true, false, false, false]);
    assert_eq!(invocations, vec![5]);
}

#[test]
fn no_action_before_the_threshold() {
    let invocations = run_pattern(4, &[false, false, false]);
    assert_eq!(invocations, Vec::<usize>::new());
}

#[test]
fn action_fires_once_per_threshold_span() {
    let invocations = run_pattern(2, &[false, false, false, false, false, false]);
    assert_eq!(invocations, vec![2, 4, 6]);
}

#[test]
fn zero_threshold_invokes_on_the_first_idle_tick() {
    let invocations = run_pattern(0, &[false, false]);
    assert_eq!(invocations, vec![1, 2]);
}

#[test]
fn activity_resets_the_counter_at_once() {
    let mut machine = IdleStateMachine::new(5);
    machine.tick(false);
    machine.tick(false);
    assert_eq!(machine.counter, 2);
    let decision = machine.tick(true);
    assert_eq!(decision, TickDecision::NoAction);
    assert_eq!(machine.counter, 0);
}

#[test]
fn suspended_and_already_in_progress_reset_failed_keeps() {
    let mut machine = IdleStateMachine::new(1);
    assert_eq!(machine.tick(false), TickDecision::InvokeAction);
    machine.apply_action_outcome(&ActionOutcome::Suspended);
    assert_eq!(machine.counter, 0);

    assert_eq!(machine.tick(false), TickDecision::InvokeAction);
    machine.apply_action_outcome(&ActionOutcome::AlreadyInProgress);
    assert_eq!(machine.counter, 0);

    assert_eq!(machine.tick(false), TickDecision::InvokeAction);
    let before = machine.counter;
    machine.apply_action_outcome(&ActionOutcome::Failed(String::from("refused")));
    assert_eq!(machine.counter, before);
}

#[test]
fn failed_action_is_reattempted_on_the_next_idle_tick() {
    let mut machine = IdleStateMachine::new(2);
    assert_eq!(machine.tick(false), TickDecision::NoAction);
    assert_eq!(machine.tick(false), TickDecision::InvokeAction);
    machine.apply_action_outcome(&ActionOutcome::Failed(String::from("busy")));
    assert_eq!(machine.counter, 2);
    assert_eq!(machine.tick(false), TickDecision::InvokeAction);
    assert_eq!(machine.counter, 2);
    machine.apply_action_outcome(&ActionOutcome::Suspended);
    assert_eq!(machine.counter, 0);
}
