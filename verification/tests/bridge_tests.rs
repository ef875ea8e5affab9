use idlewatch::bridge::ActionOutcome;
use idlewatch::bridge::BridgeCall;
use idlewatch::bridge::CallOutcome;
use idlewatch::bridge::Command;
use idlewatch::bridge::Event;
use idlewatch::bridge::ProtocolError;
use idlewatch::bridge::SdBusError;
use idlewatch::bridge::control_destination;
use idlewatch::bridge::control_interface;
use idlewatch::bridge::control_object_path;
use idlewatch::bridge::power_action_member;
use idlewatch::bridge::power_action_signature;
use idlewatch::bridge::session_list_member;
use idlewatch::bridge::session_record_signature;

fn empty_error() -> SdBusError {
    SdBusError { name: None, message: None }
}

fn error_with(message: &str) -> SdBusError {
    SdBusError {
        name: Some(String::from("org.freedesktop.DBus.Error.Failed")),
        message: Some(String::from(message)),
    }
}

/// Feeds the events in order, checking the machine announces a command
/// for each and accepts the event; returns the outcome.
fn drive(mut machine: BridgeCall, events: Vec<Event>) -> (CallOutcome, u64, u64, u64, u64, u64, u64) {
    for event in events {
        assert!(machine.command().is_some(), "machine finished before the events ran out");
        assert!(machine.accepts_event(&event), "machine refused an event");
        machine.step(event);
    }
    assert!(machine.command().is_none(), "machine still owes a command");
    assert!(machine.finished());
    let ledger = machine.ledger;
    let outcome = machine.into_outcome().expect("finished without an outcome");
    (
        outcome,
        ledger.bus_acquired,
        ledger.bus_released,
        ledger.reply_acquired,
        ledger.reply_released,
        ledger.error_acquired,
        ledger.error_released,
    )
}

#[test]
fn query_with_sessions_yields_true() {
    let machine = BridgeCall::session_query();
    assert_eq!(machine.command(), Some(Command::Connect));
    let events = vec![
        Event::Connected(0),
        Event::Called { status: 0, error: empty_error(), reply: Some(idlewatch::bridge::SdBusMessage {}) },
        Event::Entered(1),
        Event::AtEnd(0),
        Event::Exited(1),
        Event::Released,
        Event::Released,
        Event::Released,
    ];
    let (outcome, ba, br, ra, rr, ea, er) = drive(machine, events);
    assert_eq!(outcome, CallOutcome::Sessions(true));
    assert_eq!((ba, br), (1, 1));
    assert_eq!((ra, rr), (1, 1));
    assert_eq!((ea, er), (1, 1));
}

#[test]
fn query_with_empty_array_yields_false() {
    let machine = BridgeCall::session_query();
    let events = vec![
        Event::Connected(3),
        Event::Called { status: 1, error: empty_error(), reply: Some(idlewatch::bridge::SdBusMessage {}) },
        Event::Entered(0),
        Event::AtEnd(1),
        Event::Exited(0),
        Event::Released,
        Event::Released,
        Event::Released,
    ];
    let (outcome, ba, br, ra, rr, ea, er) = drive(machine, events);
    assert_eq!(outcome, CallOutcome::Sessions(false));
    assert_eq!((ba, br, ra, rr, ea, er), (1, 1, 1, 1, 1, 1));
}

#[test]
fn query_with_absent_reply_yields_false() {
    let machine = BridgeCall::session_query();
    let events = vec![
        Event::Connected(0),
        Event::Called { status: 0, error: empty_error(), reply: None },
        Event::Released,
        Event::Released,
    ];
    let (outcome, ba, br, ra, rr, ea, er) = drive(machine, events);
    assert_eq!(outcome, CallOutcome::Sessions(false));
    assert_eq!((ba, br), (1, 1));
    assert_eq!((ra, rr), (0, 0));
    assert_eq!((ea, er), (1, 1));
}

#[test]
fn query_call_failure_reports_peer_message() {
    let machine = BridgeCall::session_query();
    let events = vec![
        Event::Connected(0),
        Event::Called { status: -13, error: error_with("access denied"), reply: None },
        Event::Released,
        Event::Released,
    ];
    let (outcome, ba, br, ra, rr, ea, er) = drive(machine, events);
    assert_eq!(
        outcome,
        CallOutcome::Protocol(ProtocolError::CallFailed(String::from("access denied")))
    );
    assert_eq!((ba, br, ra, rr, ea, er), (1, 1, 0, 0, 1, 1));
}

#[test]
fn query_call_failure_synthesizes_message_from_status() {
    let machine = BridgeCall::session_query();
    let events = vec![
        Event::Connected(0),
        Event::Called { status: -42, error: empty_error(), reply: None },
        Event::Released,
        Event::Released,
    ];
    let (outcome, ..) = drive(machine, events);
    assert_eq!(
        outcome,
        CallOutcome::Protocol(ProtocolError::CallFailed(String::from(
            "D-Bus call failed: -42"
        )))
    );
}

#[test]
fn query_container_failure_is_reported_and_releases_everything() {
    let machine = BridgeCall::session_query();
    let events = vec![
        Event::Connected(0),
        Event::Called { status: 0, error: empty_error(), reply: Some(idlewatch::bridge::SdBusMessage {}) },
        Event::Entered(-7),
        Event::Released,
        Event::Released,
        Event::Released,
    ];
    let (outcome, ba, br, ra, rr, ea, er) = drive(machine, events);
    assert_eq!(outcome, CallOutcome::Protocol(ProtocolError::ContainerReadFailed(-7)));
    assert_eq!((ba, br, ra, rr, ea, er), (1, 1, 1, 1, 1, 1));
}

#[test]
fn connection_failure_acquires_nothing() {
    let machine = BridgeCall::session_query();
    let events = vec![Event::Connected(-5)];
    let (outcome, ba, br, ra, rr, ea, er) = drive(machine, events);
    assert_eq!(outcome, CallOutcome::Protocol(ProtocolError::ConnectionFailed(-5)));
    assert_eq!((ba, br, ra, rr, ea, er), (0, 0, 0, 0, 0, 0));
}

#[test]
fn release_order_is_reply_then_error_then_bus() {
    let mut machine = BridgeCall::session_query();
    machine.step(Event::Connected(0));
    machine.step(Event::Called {
        status: 0,
        error: empty_error(),
        reply: Some(idlewatch::bridge::SdBusMessage {}),
    });
    machine.step(Event::Entered(0));
    machine.step(Event::AtEnd(1));
    machine.step(Event::Exited(0));
    assert_eq!(machine.command(), Some(Command::ReleaseReply));
    machine.step(Event::Released);
    assert_eq!(machine.command(), Some(Command::ReleaseError));
    machine.step(Event::Released);
    assert_eq!(machine.command(), Some(Command::ReleaseBus));
    machine.step(Event::Released);
    assert_eq!(machine.command(), None);
}

#[test]
fn action_success_is_suspended() {
    let machine = BridgeCall::power_action(false);
    assert_eq!(machine.command(), Some(Command::Connect));
    let events = vec![
        Event::Connected(0),
        Event::Called { status: 0, error: empty_error(), reply: None },
        Event::Released,
        Event::Released,
    ];
    let (outcome, ba, br, ra, rr, ea, er) = drive(machine, events);
    assert_eq!(outcome, CallOutcome::Action(ActionOutcome::Suspended));
    assert_eq!((ba, br, ra, rr, ea, er), (1, 1, 0, 0, 1, 1));
}

#[test]
fn action_already_in_progress_is_not_an_error() {
    let machine = BridgeCall::power_action(false);
    let events = vec![
        Event::Connected(0),
        Event::Called {
            status: -16,
            error: error_with("Sleep operation already in progress"),
            reply: None,
        },
        Event::Released,
        Event::Released,
    ];
    let (outcome, ba, br, _, _, ea, er) = drive(machine, events);
    assert_eq!(outcome, CallOutcome::Action(ActionOutcome::AlreadyInProgress));
    assert_eq!((ba, br, ea, er), (1, 1, 1, 1));
}

#[test]
fn action_other_failure_carries_the_message() {
    let machine = BridgeCall::power_action(true);
    let events = vec![
        Event::Connected(0),
        Event::Called { status: -1, error: error_with("operation refused"), reply: None },
        Event::Released,
        Event::Released,
    ];
    let (outcome, ..) = drive(machine, events);
    assert_eq!(
        outcome,
        CallOutcome::Action(ActionOutcome::Failed(String::from("operation refused")))
    );
}

#[test]
fn action_releases_reply_when_one_came_back() {
    let machine = BridgeCall::power_action(false);
    let events = vec![
        Event::Connected(0),
        Event::Called {
            status: 0,
            error: empty_error(),
            reply: Some(idlewatch::bridge::SdBusMessage {}),
        },
        Event::Released,
        Event::Released,
        Event::Released,
    ];
    let (outcome, ba, br, ra, rr, ea, er) = drive(machine, events);
    assert_eq!(outcome, CallOutcome::Action(ActionOutcome::Suspended));
    assert_eq!((ba, br, ra, rr, ea, er), (1, 1, 1, 1, 1, 1));
}

#[test]
fn power_action_command_carries_the_poweroff_flag() {
    let mut machine = BridgeCall::power_action(true);
    machine.step(Event::Connected(0));
    assert_eq!(machine.command(), Some(Command::CallPowerAction { poweroff: true }));
}

#[test]
fn default_error_structure_is_empty() {
    let error = SdBusError::default();
    assert_eq!(error.name, None);
    assert_eq!(error.message, None);
}

#[test]
fn bus_identity_strings() {
    assert_eq!(control_destination(), "org.freedesktop.login1");
    assert_eq!(control_object_path(), "/org/freedesktop/login1");
    assert_eq!(control_interface(), "org.freedesktop.login1.Manager");
    assert_eq!(session_list_member(), "ListSessions");
    assert_eq!(power_action_member(false), "Suspend");
    assert_eq!(power_action_member(true), "Poweroff");
    assert_eq!(session_record_signature(), "(susso)");
    assert_eq!(power_action_signature(), "b");
}
