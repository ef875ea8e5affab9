//! The system control bridge: a verified model of one call over the init
//! system's control bus.
//!
//! A bus call is a short protocol: acquire a bus handle, invoke a remote
//! method, read the reply, and release every resource that was acquired,
//! in order, on every path. The bridge is written as a state machine:
//! [`BridgeCall::command`] says which protocol step to perform next, the
//! driver performs it and hands the result back through
//! [`BridgeCall::step`], and the machine decides everything else — how a
//! status is classified, what the reply means, and which releases are
//! still owed. The ledger of acquire and release counts is part of the
//! state, so the resource discipline is stated and proved, not assumed.

use vstd::prelude::*;

use crate::text::{contains_seq, i32_to_decimal, spec_i32_decimal, str_contains};

verus! {

/// A live handle to the system control bus, as the model tracks it.
/// Holding a value means one acquisition is still owed a release.
pub struct SdBus {}

/// A reply envelope returned by a remote call, as the model tracks it.
pub struct SdBusMessage {}

/// The protocol's error structure: owned copies of the peer's error name
/// and human-readable message. Default construction is the empty error.
#[derive(Debug, PartialEq, Eq)]
pub struct SdBusError {
    pub name: Option<String>,
    pub message: Option<String>,
}

/// Mathematical image of an [`SdBusError`].
pub struct SdBusErrorModel {
    pub name: Option<Seq<char>>,
    pub message: Option<Seq<char>>,
}

impl View for SdBusError {
    type V = SdBusErrorModel;

    open spec fn view(&self) -> SdBusErrorModel {
        SdBusErrorModel {
            name: match self.name {
                Some(n) => Some(n@),
                None => None,
            },
            message: match self.message {
                Some(m) => Some(m@),
                None => None,
            },
        }
    }
}

impl Default for SdBusError {
    /// The empty error: no name and no message.
    fn default() -> (r: Self)
        ensures
            r.name is None,
            r.message is None,
    {
        SdBusError { name: None, message: None }
    }
}

/// A protocol-level failure of a bridge call.
#[derive(Debug, PartialEq, Eq)]
pub enum ProtocolError {
    /// A bus handle could not be acquired; carries the negative status.
    ConnectionFailed(i32),
    /// The remote peer answered the call with an error; carries the
    /// human-readable message.
    CallFailed(String),
    /// The session reply's array container could not be entered; carries
    /// the negative status.
    ContainerReadFailed(i32),
}

/// The result of invoking the power-state change.
#[derive(Debug, PartialEq, Eq)]
pub enum ActionOutcome {
    /// The action call succeeded.
    Suspended,
    /// The peer reported that the requested transition is already
    /// underway; the system is heading toward the desired state.
    AlreadyInProgress,
    /// The peer refused the action; carries the message.
    Failed(String),
}

/// Mathematical image of a [`ProtocolError`]: messages become character
/// sequences.
pub enum ErrorModel {
    ConnectionFailed(int),
    CallFailed(Seq<char>),
    ContainerReadFailed(int),
}

/// Mathematical image of an [`ActionOutcome`].
pub enum ActionModel {
    Suspended,
    AlreadyInProgress,
    Failed(Seq<char>),
}

impl View for ProtocolError {
    type V = ErrorModel;

    open spec fn view(&self) -> ErrorModel {
        match self {
            ProtocolError::ConnectionFailed(code) => ErrorModel::ConnectionFailed(*code as int),
            ProtocolError::CallFailed(message) => ErrorModel::CallFailed(message@),
            ProtocolError::ContainerReadFailed(code) => ErrorModel::ContainerReadFailed(
                *code as int,
            ),
        }
    }
}

impl View for ActionOutcome {
    type V = ActionModel;

    open spec fn view(&self) -> ActionModel {
        match self {
            ActionOutcome::Suspended => ActionModel::Suspended,
            ActionOutcome::AlreadyInProgress => ActionModel::AlreadyInProgress,
            ActionOutcome::Failed(message) => ActionModel::Failed(message@),
        }
    }
}

/// Which remote operation a bridge call performs.
#[derive(Clone, Copy, Debug, PartialEq, Eq, Structural)]
pub enum CallKind {
    /// Ask the session manager to enumerate the active sessions.
    SessionQuery,
    /// Request a power transition: suspend, or power off when `poweroff`
    /// is set.
    PowerAction { poweroff: bool },
}

/// One protocol step the driver is asked to perform.
#[derive(Clone, Copy, Debug, PartialEq, Eq, Structural)]
pub enum Command {
    /// Acquire a handle to the system bus.
    Connect,
    /// Invoke the session-enumeration method; it takes no arguments.
    CallListSessions,
    /// Invoke the power-action method, passing one boolean argument with
    /// the interactive flag set, so a blocking agent makes the call fail
    /// rather than being overridden.
    CallPowerAction { poweroff: bool },
    /// Enter the reply's array-of-session-records container.
    EnterSessionArray,
    /// Ask whether the container iteration is at its end.
    CheckAtEnd,
    /// Leave the container.
    ExitContainer,
    /// Release the reply message.
    ReleaseReply,
    /// Free the error structure.
    ReleaseError,
    /// Release the bus handle.
    ReleaseBus,
}

/// What the driver reports back after performing a command.
pub enum Event {
    /// The status the connect step returned; negative means failure.
    Connected(i32),
    /// The result of the remote method call: its status, the error
    /// structure the call filled (empty on success), and the reply
    /// envelope if one came back.
    Called { status: i32, error: SdBusError, reply: Option<SdBusMessage> },
    /// The status of entering the reply's array container.
    Entered(i32),
    /// What the at-end probe returned: zero means the iteration is not
    /// at its end, so the array has at least one element.
    AtEnd(i32),
    /// The status of leaving the container (the bridge ignores it: the
    /// iteration is already over).
    Exited(i32),
    /// One release command has been performed.
    Released,
}

/// Mathematical image of an [`Event`]. Only the pieces the bridge reads
/// appear: the error structure becomes its optional message, the reply
/// envelope its presence.
pub enum EventModel {
    Connected(int),
    Called { status: int, message: Option<Seq<char>>, reply_present: bool },
    Entered(int),
    AtEnd(int),
    Exited(int),
    Released,
}

impl View for Event {
    type V = EventModel;

    open spec fn view(&self) -> EventModel {
        match self {
            Event::Connected(status) => EventModel::Connected(*status as int),
            Event::Called { status, error, reply } => EventModel::Called {
                status: *status as int,
                message: match error.message {
                    Some(m) => Some(m@),
                    None => None,
                },
                reply_present: reply is Some,
            },
            Event::Entered(status) => EventModel::Entered(*status as int),
            Event::AtEnd(status) => EventModel::AtEnd(*status as int),
            Event::Exited(status) => EventModel::Exited(*status as int),
            Event::Released => EventModel::Released,
        }
    }
}

/// How a finished bridge call ended.
#[derive(Debug, PartialEq, Eq)]
pub enum CallOutcome {
    /// The session query finished: whether at least one session exists.
    Sessions(bool),
    /// The power action finished.
    Action(ActionOutcome),
    /// A protocol-level failure.
    Protocol(ProtocolError),
}

/// Mathematical image of a [`CallOutcome`].
pub enum OutcomeModel {
    Sessions(bool),
    Action(ActionModel),
    Protocol(ErrorModel),
}

impl View for CallOutcome {
    type V = OutcomeModel;

    open spec fn view(&self) -> OutcomeModel {
        match self {
            CallOutcome::Sessions(found) => OutcomeModel::Sessions(*found),
            CallOutcome::Action(outcome) => OutcomeModel::Action(outcome@),
            CallOutcome::Protocol(error) => OutcomeModel::Protocol(error@),
        }
    }
}

/// Counts of acquire and release operations, one pair per resource.
/// The driver may read them; the proofs below show they balance on
/// every finished call.
#[derive(Clone, Copy, Debug, PartialEq, Eq, Structural)]
pub struct ResourceLedger {
    pub bus_acquired: u64,
    pub bus_released: u64,
    pub reply_acquired: u64,
    pub reply_released: u64,
    pub error_acquired: u64,
    pub error_released: u64,
}

impl ResourceLedger {
    /// Every acquisition has been released.
    pub open spec fn balanced(self) -> bool {
        &&& self.bus_acquired == self.bus_released
        &&& self.reply_acquired == self.reply_released
        &&& self.error_acquired == self.error_released
    }
}

/// The ledger of a call that has not acquired anything yet.
pub open spec fn ledger_zero() -> ResourceLedger {
    ResourceLedger {
        bus_acquired: 0,
        bus_released: 0,
        reply_acquired: 0,
        reply_released: 0,
        error_acquired: 0,
        error_released: 0,
    }
}

/// Where a bridge call stands in its protocol.
#[derive(Clone, Copy, Debug, PartialEq, Eq, Structural)]
pub enum Phase {
    /// Waiting for the bus-acquisition status.
    AwaitConnect,
    /// Waiting for the remote call's result.
    AwaitCall,
    /// Waiting for the container-enter status.
    AwaitEnter,
    /// Waiting for the at-end probe.
    AwaitAtEnd,
    /// Waiting for the container-exit status; remembers whether the
    /// array had elements.
    AwaitExit { found: bool },
    /// Releasing the resources still held, reply first, then the error
    /// structure, then the bus handle.
    Cleanup,
    /// Finished: the outcome is set and nothing is held.
    Done,
}

/// Mathematical image of a [`BridgeCall`].
#[verifier::ext_equal]
pub struct BridgeModel {
    pub kind: CallKind,
    pub phase: Phase,
    pub bus_held: bool,
    pub reply_held: bool,
    pub error_held: bool,
    pub outcome: Option<OutcomeModel>,
    pub ledger: ResourceLedger,
}

/// One bus call in flight: its kind, its phase, the resources it still
/// holds, its outcome once decided, and the acquire/release ledger.
pub struct BridgeCall {
    pub kind: CallKind,
    pub phase: Phase,
    pub bus: Option<SdBus>,
    pub reply: Option<SdBusMessage>,
    pub error: Option<SdBusError>,
    pub outcome: Option<CallOutcome>,
    pub ledger: ResourceLedger,
}

impl View for BridgeCall {
    type V = BridgeModel;

    open spec fn view(&self) -> BridgeModel {
        BridgeModel {
            kind: self.kind,
            phase: self.phase,
            bus_held: self.bus is Some,
            reply_held: self.reply is Some,
            error_held: self.error is Some,
            outcome: match self.outcome {
                Some(o) => Some(o@),
                None => None,
            },
            ledger: self.ledger,
        }
    }
}

/// A fresh bridge call of the given kind: waiting to connect, holding
/// nothing, with a zeroed ledger.
pub open spec fn initial(kind: CallKind) -> BridgeModel {
    BridgeModel {
        kind,
        phase: Phase::AwaitConnect,
        bus_held: false,
        reply_held: false,
        error_held: false,
        outcome: None,
        ledger: ledger_zero(),
    }
}

/// The message reported for a failed call: the peer's own message when
/// the error structure carries one, else one synthesized from the raw
/// status code.
pub open spec fn spec_extract_message(message: Option<Seq<char>>, status: int) -> Seq<char> {
    match message {
        Some(m) => m,
        None => "D-Bus call failed: "@ + spec_i32_decimal(status),
    }
}

/// The substring of a peer message that marks a power transition
/// already underway.
pub open spec fn in_progress_marker() -> Seq<char> {
    "already in progress"@
}

/// Whether the machine in state `m` consumes event `e` next.
pub open spec fn accepts(m: BridgeModel, e: EventModel) -> bool {
    match m.phase {
        Phase::AwaitConnect => e is Connected,
        Phase::AwaitCall => e is Called,
        Phase::AwaitEnter => e is Entered,
        Phase::AwaitAtEnd => e is AtEnd,
        Phase::AwaitExit { .. } => e is Exited,
        Phase::Cleanup => e is Released,
        Phase::Done => false,
    }
}

/// Record the outcome and move to releasing whatever is held; with
/// nothing held the call is done at once.
pub open spec fn spec_finish(m: BridgeModel, outcome: OutcomeModel) -> BridgeModel {
    BridgeModel {
        phase: if m.reply_held || m.error_held || m.bus_held {
            Phase::Cleanup
        } else {
            Phase::Done
        },
        outcome: Some(outcome),
        ..m
    }
}

/// The transition relation of a bridge call: given an accepted event,
/// the state after it.
pub open spec fn spec_step(m: BridgeModel, e: EventModel) -> BridgeModel {
    match e {
        EventModel::Connected(status) => {
            if status < 0 {
                spec_finish(m, OutcomeModel::Protocol(ErrorModel::ConnectionFailed(status)))
            } else {
                BridgeModel {
                    phase: Phase::AwaitCall,
                    bus_held: true,
                    ledger: ResourceLedger {
                        bus_acquired: (m.ledger.bus_acquired + 1) as u64,
                        ..m.ledger
                    },
                    ..m
                }
            }
        },
        EventModel::Called { status, message, reply_present } => {
            let acquired = BridgeModel {
                reply_held: reply_present,
                error_held: true,
                ledger: ResourceLedger {
                    error_acquired: (m.ledger.error_acquired + 1) as u64,
                    reply_acquired: if reply_present {
                        (m.ledger.reply_acquired + 1) as u64
                    } else {
                        m.ledger.reply_acquired
                    },
                    ..m.ledger
                },
                ..m
            };
            match m.kind {
                CallKind::SessionQuery => {
                    if status < 0 {
                        spec_finish(
                            acquired,
                            OutcomeModel::Protocol(
                                ErrorModel::CallFailed(spec_extract_message(message, status)),
                            ),
                        )
                    } else if reply_present {
                        BridgeModel { phase: Phase::AwaitEnter, ..acquired }
                    } else {
                        spec_finish(acquired, OutcomeModel::Sessions(false))
                    }
                },
                CallKind::PowerAction { .. } => {
                    if status < 0 {
                        let msg = spec_extract_message(message, status);
                        if contains_seq(msg, in_progress_marker()) {
                            spec_finish(
                                acquired,
                                OutcomeModel::Action(ActionModel::AlreadyInProgress),
                            )
                        } else {
                            spec_finish(acquired, OutcomeModel::Action(ActionModel::Failed(msg)))
                        }
                    } else {
                        spec_finish(acquired, OutcomeModel::Action(ActionModel::Suspended))
                    }
                },
            }
        },
        EventModel::Entered(status) => {
            if status < 0 {
                spec_finish(m, OutcomeModel::Protocol(ErrorModel::ContainerReadFailed(status)))
            } else {
                BridgeModel { phase: Phase::AwaitAtEnd, ..m }
            }
        },
        EventModel::AtEnd(status) => {
            BridgeModel { phase: Phase::AwaitExit { found: status == 0 }, ..m }
        },
        EventModel::Exited(_) => {
            match m.phase {
                Phase::AwaitExit { found } => spec_finish(m, OutcomeModel::Sessions(found)),
                _ => m,
            }
        },
        EventModel::Released => {
            let released = if m.reply_held {
                BridgeModel {
                    reply_held: false,
                    ledger: ResourceLedger {
                        reply_released: (m.ledger.reply_released + 1) as u64,
                        ..m.ledger
                    },
                    ..m
                }
            } else if m.error_held {
                BridgeModel {
                    error_held: false,
                    ledger: ResourceLedger {
                        error_released: (m.ledger.error_released + 1) as u64,
                        ..m.ledger
                    },
                    ..m
                }
            } else {
                BridgeModel {
                    bus_held: false,
                    ledger: ResourceLedger {
                        bus_released: (m.ledger.bus_released + 1) as u64,
                        ..m.ledger
                    },
                    ..m
                }
            };
            if released.reply_held || released.error_held || released.bus_held {
                released
            } else {
                BridgeModel { phase: Phase::Done, ..released }
            }
        },
    }
}

/// The protocol step owed in state `m`: `None` once the call is done.
/// Releases go in order: the reply first, then the error structure,
/// then the bus handle.
pub open spec fn spec_command(m: BridgeModel) -> Option<Command> {
    match m.phase {
        Phase::AwaitConnect => Some(Command::Connect),
        Phase::AwaitCall => Some(
            match m.kind {
                CallKind::SessionQuery => Command::CallListSessions,
                CallKind::PowerAction { poweroff } => Command::CallPowerAction { poweroff },
            },
        ),
        Phase::AwaitEnter => Some(Command::EnterSessionArray),
        Phase::AwaitAtEnd => Some(Command::CheckAtEnd),
        Phase::AwaitExit { .. } => Some(Command::ExitContainer),
        Phase::Cleanup => Some(
            if m.reply_held {
                Command::ReleaseReply
            } else if m.error_held {
                Command::ReleaseError
            } else {
                Command::ReleaseBus
            },
        ),
        Phase::Done => None,
    }
}

/// The invariant every reachable bridge state satisfies. It ties the
/// ledger to the held resources (so a release can never outnumber an
/// acquisition), orders the held resources (a reply is only held under
/// an error structure, an error structure only under a bus handle), and
/// pins what each phase holds; in particular a finished call holds
/// nothing, so its ledger balances.
pub open spec fn wf(m: BridgeModel) -> bool {
    &&& m.ledger.bus_acquired <= 1
    &&& m.ledger.reply_acquired <= 1
    &&& m.ledger.error_acquired <= 1
    &&& m.ledger.bus_acquired as int == m.ledger.bus_released as int + (if m.bus_held {
        1int
    } else {
        0int
    })
    &&& m.ledger.reply_acquired as int == m.ledger.reply_released as int + (if m.reply_held {
        1int
    } else {
        0int
    })
    &&& m.ledger.error_acquired as int == m.ledger.error_released as int + (if m.error_held {
        1int
    } else {
        0int
    })
    &&& (m.reply_held ==> m.error_held)
    &&& (m.error_held ==> m.bus_held)
    &&& match m.phase {
        Phase::AwaitConnect => !m.bus_held && m.ledger == ledger_zero() && m.outcome is None,
        Phase::AwaitCall => m.bus_held && !m.error_held && !m.reply_held
            && m.ledger.error_acquired == 0 && m.ledger.reply_acquired == 0
            && m.outcome is None,
        Phase::AwaitEnter => m.kind is SessionQuery && m.reply_held && m.outcome is None,
        Phase::AwaitAtEnd => m.kind is SessionQuery && m.reply_held && m.outcome is None,
        Phase::AwaitExit { .. } => m.kind is SessionQuery && m.reply_held && m.outcome is None,
        Phase::Cleanup => m.bus_held && m.outcome is Some,
        Phase::Done => !m.bus_held && !m.reply_held && !m.error_held && m.outcome is Some,
    }
    &&& match m.outcome {
        Some(OutcomeModel::Sessions(_)) => m.kind is SessionQuery,
        Some(OutcomeModel::Action(_)) => m.kind is PowerAction,
        Some(OutcomeModel::Protocol(ErrorModel::CallFailed(_))) => m.kind is SessionQuery,
        Some(OutcomeModel::Protocol(ErrorModel::ContainerReadFailed(_))) => m.kind
            is SessionQuery,
        _ => true,
    }
}

/// Each accepted step preserves the invariant.
pub proof fn lemma_step_wf(m: BridgeModel, e: EventModel)
    requires
        wf(m),
        accepts(m, e),
    ensures
        wf(spec_step(m, e)),
{
}

/// Once decided, the outcome never changes: the remaining steps only
/// release resources.
pub proof fn lemma_outcome_stable(m: BridgeModel, e: EventModel)
    requires
        wf(m),
        accepts(m, e),
        m.outcome is Some,
    ensures
        spec_step(m, e).outcome == m.outcome,
{
}

/// The fold of the transition relation over a sequence of events.
pub open spec fn run_trace(m: BridgeModel, events: Seq<EventModel>) -> BridgeModel
    decreases events.len(),
{
    if events.len() == 0 {
        m
    } else {
        run_trace(spec_step(m, events[0]), events.drop_first())
    }
}

/// Whether every event of the sequence is accepted in turn.
pub open spec fn valid_trace(m: BridgeModel, events: Seq<EventModel>) -> bool
    decreases events.len(),
{
    events.len() == 0 || (accepts(m, events[0]) && valid_trace(
        spec_step(m, events[0]),
        events.drop_first(),
    ))
}

/// The invariant holds after any valid sequence of events. Applied to a
/// prefix of a run, this is the no-double-release half of the resource
/// discipline: at no point does a release count exceed its acquire
/// count.
pub proof fn lemma_run_wf(m: BridgeModel, events: Seq<EventModel>)
    requires
        wf(m),
        valid_trace(m, events),
    ensures
        wf(run_trace(m, events)),
    decreases events.len(),
{
    if events.len() > 0 {
        lemma_step_wf(m, events[0]);
        lemma_run_wf(spec_step(m, events[0]), events.drop_first());
    }
}

/// Resource discipline: on every valid run that finishes, the number of
/// acquire operations on the bus handle, the reply message and the
/// error structure equals the number of release operations — no leak
/// and no double release, on success and on every error path.
pub proof fn lemma_resource_discipline(m: BridgeModel, events: Seq<EventModel>)
    requires
        wf(m),
        valid_trace(m, events),
        run_trace(m, events).phase is Done,
    ensures
        run_trace(m, events).ledger.balanced(),
{
    lemma_run_wf(m, events);
}

/// Unfolds one step of `valid_trace` and `run_trace`.
proof fn lemma_trace_step(m: BridgeModel, events: Seq<EventModel>, e: EventModel)
    requires
        events.len() > 0,
        events[0] == e,
        accepts(m, e),
    ensures
        valid_trace(m, events) == valid_trace(spec_step(m, e), events.drop_first()),
        run_trace(m, events) == run_trace(spec_step(m, e), events.drop_first()),
{
}

/// The events of a session query whose connect and call steps succeed:
/// when a reply envelope came back its array is entered, probed and
/// exited and three releases follow; with no reply only the error
/// structure and the bus are released.
pub open spec fn query_success_trace(
    connect_status: int,
    call_status: int,
    message: Option<Seq<char>>,
    reply_present: bool,
    enter_status: int,
    at_end_status: int,
    exit_status: int,
) -> Seq<EventModel> {
    if reply_present {
        seq![
            EventModel::Connected(connect_status),
            EventModel::Called { status: call_status, message, reply_present: true },
            EventModel::Entered(enter_status),
            EventModel::AtEnd(at_end_status),
            EventModel::Exited(exit_status),
            EventModel::Released,
            EventModel::Released,
            EventModel::Released,
        ]
    } else {
        seq![
            EventModel::Connected(connect_status),
            EventModel::Called { status: call_status, message, reply_present: false },
            EventModel::Released,
            EventModel::Released,
        ]
    }
}

/// What a successful session query answers: an absent reply yields
/// `false`, a reply whose array is at its end (empty) yields `false`,
/// and a reply with at least one element (the at-end probe returns
/// zero) yields `true` — and the run finishes with a balanced ledger.
pub proof fn lemma_query_reply_decides_sessions(
    connect_status: int,
    call_status: int,
    message: Option<Seq<char>>,
    reply_present: bool,
    enter_status: int,
    at_end_status: int,
    exit_status: int,
)
    requires
        connect_status >= 0,
        call_status >= 0,
        enter_status >= 0,
    ensures
        ({
            let start = initial(CallKind::SessionQuery);
            let events = query_success_trace(
                connect_status,
                call_status,
                message,
                reply_present,
                enter_status,
                at_end_status,
                exit_status,
            );
            let end = run_trace(start, events);
            &&& valid_trace(start, events)
            &&& end.phase is Done
            &&& end.outcome == Some(
                OutcomeModel::Sessions(reply_present && at_end_status == 0),
            )
            &&& end.ledger.balanced()
        }),
{
    let start = initial(CallKind::SessionQuery);
    let events = query_success_trace(
        connect_status,
        call_status,
        message,
        reply_present,
        enter_status,
        at_end_status,
        exit_status,
    );
    let e0 = EventModel::Connected(connect_status);
    let e1 = EventModel::Called { status: call_status, message, reply_present };
    let m1 = spec_step(start, e0);
    let s1 = events.drop_first();
    lemma_trace_step(start, events, e0);
    let m2 = spec_step(m1, e1);
    let s2 = s1.drop_first();
    lemma_trace_step(m1, s1, e1);
    if reply_present {
        let m3 = spec_step(m2, EventModel::Entered(enter_status));
        let s3 = s2.drop_first();
        lemma_trace_step(m2, s2, EventModel::Entered(enter_status));
        let m4 = spec_step(m3, EventModel::AtEnd(at_end_status));
        let s4 = s3.drop_first();
        lemma_trace_step(m3, s3, EventModel::AtEnd(at_end_status));
        let m5 = spec_step(m4, EventModel::Exited(exit_status));
        let s5 = s4.drop_first();
        lemma_trace_step(m4, s4, EventModel::Exited(exit_status));
        let m6 = spec_step(m5, EventModel::Released);
        let s6 = s5.drop_first();
        lemma_trace_step(m5, s5, EventModel::Released);
        let m7 = spec_step(m6, EventModel::Released);
        let s7 = s6.drop_first();
        lemma_trace_step(m6, s6, EventModel::Released);
        let m8 = spec_step(m7, EventModel::Released);
        let s8 = s7.drop_first();
        lemma_trace_step(m7, s7, EventModel::Released);
        assert(s8.len() == 0);
        assert(valid_trace(m8, s8));
        assert(run_trace(m8, s8) == m8);
    } else {
        let m3 = spec_step(m2, EventModel::Released);
        let s3 = s2.drop_first();
        lemma_trace_step(m2, s2, EventModel::Released);
        let m4 = spec_step(m3, EventModel::Released);
        let s4 = s3.drop_first();
        lemma_trace_step(m3, s3, EventModel::Released);
        assert(s4.len() == 0);
        assert(valid_trace(m4, s4));
        assert(run_trace(m4, s4) == m4);
    }
}

/// The events of a power action whose connect step succeeds: the call is
/// made, any reply is released, then the error structure and the bus.
pub open spec fn action_trace(
    connect_status: int,
    call_status: int,
    message: Option<Seq<char>>,
    reply_present: bool,
) -> Seq<EventModel> {
    if reply_present {
        seq![
            EventModel::Connected(connect_status),
            EventModel::Called { status: call_status, message, reply_present: true },
            EventModel::Released,
            EventModel::Released,
            EventModel::Released,
        ]
    } else {
        seq![
            EventModel::Connected(connect_status),
            EventModel::Called { status: call_status, message, reply_present: false },
            EventModel::Released,
            EventModel::Released,
        ]
    }
}

/// How a power action's call result is classified: a non-negative
/// status is `Suspended`; a failure whose message contains the
/// already-underway marker is `AlreadyInProgress`, so the counter may
/// reset without any fatal error; any other failure is `Failed` with
/// the extracted message. Every case finishes with a balanced ledger.
pub proof fn lemma_action_classification(
    poweroff: bool,
    connect_status: int,
    call_status: int,
    message: Option<Seq<char>>,
    reply_present: bool,
)
    requires
        connect_status >= 0,
    ensures
        ({
            let start = initial(CallKind::PowerAction { poweroff });
            let events = action_trace(connect_status, call_status, message, reply_present);
            let end = run_trace(start, events);
            let extracted = spec_extract_message(message, call_status);
            &&& valid_trace(start, events)
            &&& end.phase is Done
            &&& end.ledger.balanced()
            &&& end.outcome == Some(
                OutcomeModel::Action(
                    if call_status >= 0 {
                        ActionModel::Suspended
                    } else if contains_seq(extracted, in_progress_marker()) {
                        ActionModel::AlreadyInProgress
                    } else {
                        ActionModel::Failed(extracted)
                    },
                ),
            )
        }),
{
    let start = initial(CallKind::PowerAction { poweroff });
    let events = action_trace(connect_status, call_status, message, reply_present);
    let e0 = EventModel::Connected(connect_status);
    let e1 = EventModel::Called { status: call_status, message, reply_present };
    let m1 = spec_step(start, e0);
    let s1 = events.drop_first();
    lemma_trace_step(start, events, e0);
    let m2 = spec_step(m1, e1);
    let s2 = s1.drop_first();
    lemma_trace_step(m1, s1, e1);
    let m3 = spec_step(m2, EventModel::Released);
    let s3 = s2.drop_first();
    lemma_trace_step(m2, s2, EventModel::Released);
    let m4 = spec_step(m3, EventModel::Released);
    let s4 = s3.drop_first();
    lemma_trace_step(m3, s3, EventModel::Released);
    if reply_present {
        let m5 = spec_step(m4, EventModel::Released);
        let s5 = s4.drop_first();
        lemma_trace_step(m4, s4, EventModel::Released);
        assert(s5.len() == 0);
        assert(valid_trace(m5, s5));
        assert(run_trace(m5, s5) == m5);
    } else {
        assert(s4.len() == 0);
        assert(valid_trace(m4, s4));
        assert(run_trace(m4, s4) == m4);
    }
}

/// A failed connect finishes the call at once: nothing was acquired, so
/// nothing is owed, and the outcome is the fatal connection error with
/// the status it carries.
pub proof fn lemma_connection_failure(kind: CallKind, connect_status: int)
    requires
        connect_status < 0,
    ensures
        ({
            let start = initial(kind);
            let events = seq![EventModel::Connected(connect_status)];
            let end = run_trace(start, events);
            &&& valid_trace(start, events)
            &&& end.phase is Done
            &&& end.ledger.balanced()
            &&& end.outcome == Some(
                OutcomeModel::Protocol(ErrorModel::ConnectionFailed(connect_status)),
            )
        }),
{
    let start = initial(kind);
    let events = seq![EventModel::Connected(connect_status)];
    let e0 = EventModel::Connected(connect_status);
    lemma_trace_step(start, events, e0);
    let m1 = spec_step(start, e0);
    let s1 = events.drop_first();
    assert(s1.len() == 0);
    assert(valid_trace(m1, s1));
    assert(run_trace(m1, s1) == m1);
}

/// A session query whose remote call fails finishes with `CallFailed`
/// carrying the extracted message, after releasing the error structure
/// and the bus — the failure is reported, not swallowed, and nothing
/// leaks.
pub proof fn lemma_query_call_failure(
    connect_status: int,
    call_status: int,
    message: Option<Seq<char>>,
)
    requires
        connect_status >= 0,
        call_status < 0,
    ensures
        ({
            let start = initial(CallKind::SessionQuery);
            let events = seq![
                EventModel::Connected(connect_status),
                EventModel::Called { status: call_status, message, reply_present: false },
                EventModel::Released,
                EventModel::Released,
            ];
            let end = run_trace(start, events);
            &&& valid_trace(start, events)
            &&& end.phase is Done
            &&& end.ledger.balanced()
            &&& end.outcome == Some(
                OutcomeModel::Protocol(
                    ErrorModel::CallFailed(spec_extract_message(message, call_status)),
                ),
            )
        }),
{
    let start = initial(CallKind::SessionQuery);
    let e0 = EventModel::Connected(connect_status);
    let e1 = EventModel::Called { status: call_status, message, reply_present: false };
    let events = seq![e0, e1, EventModel::Released, EventModel::Released];
    lemma_trace_step(start, events, e0);
    let m1 = spec_step(start, e0);
    let s1 = events.drop_first();
    lemma_trace_step(m1, s1, e1);
    let m2 = spec_step(m1, e1);
    let s2 = s1.drop_first();
    lemma_trace_step(m2, s2, EventModel::Released);
    let m3 = spec_step(m2, EventModel::Released);
    let s3 = s2.drop_first();
    lemma_trace_step(m3, s3, EventModel::Released);
    let m4 = spec_step(m3, EventModel::Released);
    let s4 = s3.drop_first();
    assert(s4.len() == 0);
    assert(valid_trace(m4, s4));
    assert(run_trace(m4, s4) == m4);
}

/// A session query whose reply's array container cannot be entered
/// finishes with `ContainerReadFailed`, a reportable error, after
/// releasing the reply, the error structure and the bus in that order.
pub proof fn lemma_query_container_failure(
    connect_status: int,
    call_status: int,
    message: Option<Seq<char>>,
    enter_status: int,
)
    requires
        connect_status >= 0,
        call_status >= 0,
        enter_status < 0,
    ensures
        ({
            let start = initial(CallKind::SessionQuery);
            let events = seq![
                EventModel::Connected(connect_status),
                EventModel::Called { status: call_status, message, reply_present: true },
                EventModel::Entered(enter_status),
                EventModel::Released,
                EventModel::Released,
                EventModel::Released,
            ];
            let end = run_trace(start, events);
            &&& valid_trace(start, events)
            &&& end.phase is Done
            &&& end.ledger.balanced()
            &&& end.outcome == Some(
                OutcomeModel::Protocol(ErrorModel::ContainerReadFailed(enter_status)),
            )
        }),
{
    let start = initial(CallKind::SessionQuery);
    let e0 = EventModel::Connected(connect_status);
    let e1 = EventModel::Called { status: call_status, message, reply_present: true };
    let e2 = EventModel::Entered(enter_status);
    let events = seq![
        e0,
        e1,
        e2,
        EventModel::Released,
        EventModel::Released,
        EventModel::Released,
    ];
    lemma_trace_step(start, events, e0);
    let m1 = spec_step(start, e0);
    let s1 = events.drop_first();
    lemma_trace_step(m1, s1, e1);
    let m2 = spec_step(m1, e1);
    let s2 = s1.drop_first();
    lemma_trace_step(m2, s2, e2);
    let m3 = spec_step(m2, e2);
    let s3 = s2.drop_first();
    lemma_trace_step(m3, s3, EventModel::Released);
    let m4 = spec_step(m3, EventModel::Released);
    let s4 = s3.drop_first();
    lemma_trace_step(m4, s4, EventModel::Released);
    let m5 = spec_step(m4, EventModel::Released);
    let s5 = s4.drop_first();
    lemma_trace_step(m5, s5, EventModel::Released);
    let m6 = spec_step(m5, EventModel::Released);
    let s6 = s5.drop_first();
    assert(s6.len() == 0);
    assert(valid_trace(m6, s6));
    assert(run_trace(m6, s6) == m6);
}

/// The failure message of a call: the peer's own message when the error
/// structure carries one, else one synthesized from the status code.
fn extract_error_message(error: &SdBusError, status: i32) -> (r: String)
    ensures
        r@ == spec_extract_message(error@.message, status as int),
{
    match &error.message {
        Some(message) => message.clone(),
        None => {
            let mut synthesized = String::from_str("D-Bus call failed: ");
            synthesized.append(i32_to_decimal(status).as_str());
            synthesized
        },
    }
}

impl BridgeCall {
    /// Start a session query: the call that asks the session manager to
    /// enumerate the active sessions and reads only whether the reply's
    /// array is empty.
    pub fn session_query() -> (machine: Self)
        ensures
            machine@ == initial(CallKind::SessionQuery),
            wf(machine@),
    {
        BridgeCall {
            kind: CallKind::SessionQuery,
            phase: Phase::AwaitConnect,
            bus: None,
            reply: None,
            error: None,
            outcome: None,
            ledger: ResourceLedger {
                bus_acquired: 0,
                bus_released: 0,
                reply_acquired: 0,
                reply_released: 0,
                error_acquired: 0,
                error_released: 0,
            },
        }
    }

    /// Start a power action: suspend, or power off when `poweroff` is
    /// set.
    pub fn power_action(poweroff: bool) -> (machine: Self)
        ensures
            machine@ == initial(CallKind::PowerAction { poweroff }),
            wf(machine@),
    {
        BridgeCall {
            kind: CallKind::PowerAction { poweroff },
            phase: Phase::AwaitConnect,
            bus: None,
            reply: None,
            error: None,
            outcome: None,
            ledger: ResourceLedger {
                bus_acquired: 0,
                bus_released: 0,
                reply_acquired: 0,
                reply_released: 0,
                error_acquired: 0,
                error_released: 0,
            },
        }
    }

    /// The protocol step the driver owes next; `None` once the call is
    /// done.
    pub fn command(&self) -> (c: Option<Command>)
        ensures
            c == spec_command(self@),
    {
        match self.phase {
            Phase::AwaitConnect => Some(Command::Connect),
            Phase::AwaitCall => Some(
                match self.kind {
                    CallKind::SessionQuery => Command::CallListSessions,
                    CallKind::PowerAction { poweroff } => Command::CallPowerAction { poweroff },
                },
            ),
            Phase::AwaitEnter => Some(Command::EnterSessionArray),
            Phase::AwaitAtEnd => Some(Command::CheckAtEnd),
            Phase::AwaitExit { .. } => Some(Command::ExitContainer),
            Phase::Cleanup => Some(
                if self.reply.is_some() {
                    Command::ReleaseReply
                } else if self.error.is_some() {
                    Command::ReleaseError
                } else {
                    Command::ReleaseBus
                },
            ),
            Phase::Done => None,
        }
    }

    /// Whether the machine consumes this event next; the driver checks
    /// this before calling [`BridgeCall::step`].
    pub fn accepts_event(&self, event: &Event) -> (r: bool)
        ensures
            r == accepts(self@, event@),
    {
        match self.phase {
            Phase::AwaitConnect => matches!(event, Event::Connected(_)),
            Phase::AwaitCall => matches!(event, Event::Called { .. }),
            Phase::AwaitEnter => matches!(event, Event::Entered(_)),
            Phase::AwaitAtEnd => matches!(event, Event::AtEnd(_)),
            Phase::AwaitExit { .. } => matches!(event, Event::Exited(_)),
            Phase::Cleanup => matches!(event, Event::Released),
            Phase::Done => false,
        }
    }

    /// Whether the call has finished.
    pub fn finished(&self) -> (r: bool)
        ensures
            r == (self@.phase is Done),
    {
        matches!(self.phase, Phase::Done)
    }

    /// The outcome of a finished call; `None` while steps are still
    /// owed.
    pub fn into_outcome(self) -> (r: Option<CallOutcome>)
        requires
            wf(self@),
        ensures
            match r {
                Some(outcome) => self@.phase is Done && self@.outcome == Some(outcome@),
                None => !(self@.phase is Done),
            },
    {
        match self.phase {
            Phase::Done => self.outcome,
            _ => None,
        }
    }

    /// Record the outcome and turn to releasing whatever is held.
    fn finish(&mut self, outcome: CallOutcome)
        ensures
            final(self)@ == spec_finish(old(self)@, outcome@),
    {
        let any_held = self.reply.is_some() || self.error.is_some() || self.bus.is_some();
        self.outcome = Some(outcome);
        self.phase = if any_held {
            Phase::Cleanup
        } else {
            Phase::Done
        };
    }

    /// Consume one event: the machine classifies the reported result,
    /// records acquisitions and releases in the ledger, and decides the
    /// next step, exactly as `spec_step` says.
    pub fn step(&mut self, event: Event)
        requires
            wf(old(self)@),
            accepts(old(self)@, event@),
        ensures
            final(self)@ == spec_step(old(self)@, event@),
            wf(final(self)@),
    {
        proof {
            lemma_step_wf(old(self)@, event@);
        }
        match event {
            Event::Connected(status) => {
                if status < 0 {
                    self.finish(
                        CallOutcome::Protocol(ProtocolError::ConnectionFailed(status)),
                    );
                } else {
                    self.bus = Some(SdBus {});
                    self.ledger.bus_acquired = self.ledger.bus_acquired + 1;
                    self.phase = Phase::AwaitCall;
                }
            },
            Event::Called { status, error, reply } => {
                let reply_present = reply.is_some();
                self.reply = reply;
                if reply_present {
                    self.ledger.reply_acquired = self.ledger.reply_acquired + 1;
                }
                let negative = status < 0;
                let failure_message: Option<String> = if negative {
                    Some(extract_error_message(&error, status))
                } else {
                    None
                };
                self.error = Some(error);
                self.ledger.error_acquired = self.ledger.error_acquired + 1;
                match self.kind {
                    CallKind::SessionQuery => {
                        if negative {
                            let message = failure_message.unwrap();
                            self.finish(
                                CallOutcome::Protocol(ProtocolError::CallFailed(message)),
                            );
                        } else if reply_present {
                            self.phase = Phase::AwaitEnter;
                        } else {
                            self.finish(CallOutcome::Sessions(false));
                        }
                    },
                    CallKind::PowerAction { .. } => {
                        if negative {
                            let message = failure_message.unwrap();
                            if str_contains(message.as_str(), "already in progress") {
                                self.finish(
                                    CallOutcome::Action(ActionOutcome::AlreadyInProgress),
                                );
                            } else {
                                self.finish(CallOutcome::Action(ActionOutcome::Failed(message)));
                            }
                        } else {
                            self.finish(CallOutcome::Action(ActionOutcome::Suspended));
                        }
                    },
                }
            },
            Event::Entered(status) => {
                if status < 0 {
                    self.finish(
                        CallOutcome::Protocol(ProtocolError::ContainerReadFailed(status)),
                    );
                } else {
                    self.phase = Phase::AwaitAtEnd;
                }
            },
            Event::AtEnd(status) => {
                self.phase = Phase::AwaitExit { found: status == 0 };
            },
            Event::Exited(_) => {
                match self.phase {
                    Phase::AwaitExit { found } => {
                        self.finish(CallOutcome::Sessions(found));
                    },
                    _ => {
                        proof {
                            assert(false);
                        }
                    },
                }
            },
            Event::Released => {
                if self.reply.is_some() {
                    self.reply = None;
                    self.ledger.reply_released = self.ledger.reply_released + 1;
                } else if self.error.is_some() {
                    self.error = None;
                    self.ledger.error_released = self.ledger.error_released + 1;
                } else {
                    self.bus = None;
                    self.ledger.bus_released = self.ledger.bus_released + 1;
                }
                if self.reply.is_none() && self.error.is_none() && self.bus.is_none() {
                    self.phase = Phase::Done;
                }
            },
        }
    }
}

/// The bus name of the init system's session manager.
pub fn control_destination() -> (r: String)
    ensures
        r@ == "org.freedesktop.login1"@,
{
    String::from_str("org.freedesktop.login1")
}

/// The object path the bridge's methods live under.
pub fn control_object_path() -> (r: String)
    ensures
        r@ == "/org/freedesktop/login1"@,
{
    String::from_str("/org/freedesktop/login1")
}

/// The interface that carries both the session query and the power
/// actions.
pub fn control_interface() -> (r: String)
    ensures
        r@ == "org.freedesktop.login1.Manager"@,
{
    String::from_str("org.freedesktop.login1.Manager")
}

/// The member name of the session-enumeration method.
pub fn session_list_member() -> (r: String)
    ensures
        r@ == "ListSessions"@,
{
    String::from_str("ListSessions")
}

/// The member name of the power action: "Poweroff" when `poweroff` is
/// set, else "Suspend".
pub fn power_action_member(poweroff: bool) -> (r: String)
    ensures
        poweroff ==> r@ == "Poweroff"@,
        !poweroff ==> r@ == "Suspend"@,
{
    if poweroff {
        String::from_str("Poweroff")
    } else {
        String::from_str("Suspend")
    }
}

/// The type signature of one element of the session array: a six-field
/// record, of which the bridge decodes nothing.
pub fn session_record_signature() -> (r: String)
    ensures
        r@ == "(susso)"@,
{
    String::from_str("(susso)")
}

/// The argument signature of the power action: one boolean.
pub fn power_action_signature() -> (r: String)
    ensures
        r@ == "b"@,
{
    String::from_str("b")
}

} // verus!
