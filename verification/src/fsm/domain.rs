//! Hierarchical finite state machine of the device.
//!
//! The state is an immutable snapshot (`FsmState`); `step` maps a state and an
//! event to the next state plus the actions that the runtime must perform.

use vstd::prelude::*;
use crate::keyed::StringMap;
use crate::message::domain::{HubMessage, ServerMessage};

verus! {

/// What the balancing service hands to the core.
#[derive(Debug, Clone, PartialEq, Eq)]
pub enum FsmServiceResponse {
    NewEpoch(u32),
    GetEpoch,
    ToServer(ServerMessage),
    ToHub(HubMessage),
}

/// What the core hands to the balancing service.
#[derive(Debug, Clone, PartialEq, Eq)]
pub enum FsmServiceCommand {
    ErrorEpoch,
    Epoch(u32),
    FromHub(HubMessage),
    FromServer(ServerMessage),
    CreateRuntime,
    DeleteRuntime,
}

/// Top-level operating mode.
#[derive(Debug, Clone, Copy, PartialEq, Eq, Structural)]
pub enum StateGlobal {
    Start,
    BalanceMode,
    Normal,
    SafeMode,
}

/// Sub-states of `StateGlobal::BalanceMode`.
#[derive(Debug, Clone, Copy, PartialEq, Eq, Structural)]
pub enum SubStateBalanceMode {
    InitBalanceMode,
    InHandshake,
    Quorum,
    Phase,
    OutHandshake,
}

/// Sub-states of the quorum check.
#[derive(Debug, Clone, Copy, PartialEq, Eq, Structural)]
pub enum SubStateQuorum {
    CheckQuorumIn,
    CheckQuorumOut,
    RepeatHandshakeIn,
    RepeatHandshakeOut,
}

/// Operating phases inside balance mode.
#[derive(Debug, Clone, Copy, PartialEq, Eq, Structural)]
pub enum SubStatePhase {
    Alert,
    Data,
    Monitor,
}

/// Complete state of the machine; a child is `None` while its parent is inactive.
#[derive(Debug, Clone, Copy)]
pub struct FsmState {
    pub global: StateGlobal,
    pub balance: Option<SubStateBalanceMode>,
    pub quorum: Option<SubStateQuorum>,
    pub phase: Option<SubStatePhase>,
}

/// Side effects decided by the machine and carried out by the runtime.
#[derive(Debug, PartialEq, Eq, Clone, Copy, Structural)]
pub enum Action {
    SendHeartbeatMessagePhase,
    SendHeartbeatMessageSafeMode,
    SendHeartbeatMessageNormal,
    StopSendHeartbeatMessagePhase,
    StopSendHeartbeatMessageSafeMode,
    OnEntryBalance(SubStateBalanceMode),
    OnEntryQuorum(SubStateQuorum),
    OnEntryPhase(SubStatePhase),
    OnEntryNormal,
    OnEntrySafeMode,
    StopTimer,
}

/// Events that drive the machine; a timer length is in milliseconds.
#[derive(Debug, Clone, Copy, PartialEq, Eq, Structural)]
pub enum Event {
    Start,
    WaitOk,
    Timeout,
    BalanceEpochOk,
    BalanceEpochNotOk,
    ApproveQuorum,
    QuorumPhase,
    QuorumSafeMode,
    NotApproveQuorum,
    NotApproveNotAttempts,
    InitTimer(u64),
    StopTimer,
}

impl FsmState {
    /// The initial state: `Start` with no active sub-state.
    pub fn new() -> (s: Self)
        ensures
            s == initial_state(),
    {
        FsmState { global: StateGlobal::Start, balance: None, quorum: None, phase: None }
    }
}

pub open spec fn initial_state() -> FsmState {
    FsmState { global: StateGlobal::Start, balance: None, quorum: None, phase: None }
}

/// Result of applying an event to a state.
#[derive(Debug)]
pub enum Transition {
    Valid(TransitionValid),
    Invalid(TransitionInvalid),
}

/// Data of an accepted transition.
#[derive(Debug)]
pub struct TransitionValid {
    change_state: FsmState,
    actions: Vec<Action>,
}

impl TransitionValid {
    pub closed spec fn next(&self) -> FsmState {
        self.change_state
    }

    pub closed spec fn action_seq(&self) -> Seq<Action> {
        self.actions@
    }

    pub fn get_change_state(&self) -> (s: FsmState)
        ensures
            s == self.next(),
    {
        self.change_state
    }

    pub fn get_actions(&self) -> (a: Vec<Action>)
        ensures
            a@ == self.action_seq(),
    {
        let mut out: Vec<Action> = Vec::new();
        let n = self.actions.len();
        for i in 0..n
            invariant
                n == self.actions@.len(),
                out@ == self.actions@.take(i as int),
        {
            out.push(self.actions[i]);
            assert(self.actions@.take(i + 1) =~= self.actions@.take(i as int).push(self.actions@[i as int]));
        }
        assert(self.actions@.take(n as int) =~= self.actions@);
        out
    }
}

/// Data of a refused transition: the reason.
#[derive(Debug)]
pub struct TransitionInvalid {
    invalid: String,
}

impl TransitionInvalid {
    pub closed spec fn reason(&self) -> Seq<char> {
        self.invalid@
    }

    pub fn get_invalid(&self) -> (r: &str)
        ensures
            r@ == self.reason(),
    {
        self.invalid.as_str()
    }
}

/// Reason given when `Normal` receives any event.
pub open spec fn normal_reason() -> Seq<char> {
    "No hay mas transiciones para ejecutar, una vez dentro de Normal, no se sale nunca"@
}

/// Reason given when `Start` receives anything but `Event::Start`.
pub open spec fn start_reason() -> Seq<char> {
    "Invalid"@
}

/// Reason given by balance mode and safe mode for an event they do not handle.
pub open spec fn generic_reason() -> Seq<char> {
    "Transición inválida"@
}

/// The transition table: the next state and the actions of the transition itself,
/// or `None` when the event is not accepted in that state.
pub open spec fn table(s: FsmState, e: Event) -> Option<(FsmState, Seq<Action>)> {
    match s.global {
        StateGlobal::Start => if e is Start {
            Some((
                FsmState {
                    global: StateGlobal::BalanceMode,
                    balance: Some(SubStateBalanceMode::InitBalanceMode),
                    ..s
                },
                seq![Action::OnEntryBalance(SubStateBalanceMode::InitBalanceMode)],
            ))
        } else {
            None
        },
        StateGlobal::BalanceMode => table_balance(s, e),
        StateGlobal::SafeMode => if e is Timeout || e is QuorumSafeMode {
            Some((s, seq![Action::StopSendHeartbeatMessageSafeMode]))
        } else {
            None
        },
        StateGlobal::Normal => None,
    }
}

/// The transition table of balance mode.
pub open spec fn table_balance(s: FsmState, e: Event) -> Option<(FsmState, Seq<Action>)> {
    match s.balance {
        Some(SubStateBalanceMode::InitBalanceMode) => match e {
            Event::BalanceEpochOk => Some((
                FsmState { balance: Some(SubStateBalanceMode::InHandshake), ..s },
                seq![],
            )),
            Event::BalanceEpochNotOk => Some((
                FsmState { balance: None, global: StateGlobal::SafeMode, ..s },
                seq![],
            )),
            _ => None,
        },
        Some(SubStateBalanceMode::InHandshake) => if e is Timeout {
            Some((
                FsmState {
                    balance: Some(SubStateBalanceMode::Quorum),
                    quorum: Some(SubStateQuorum::CheckQuorumIn),
                    ..s
                },
                seq![],
            ))
        } else {
            None
        },
        Some(SubStateBalanceMode::Quorum) => table_quorum(s, e),
        Some(SubStateBalanceMode::Phase) => if e is Timeout || e is QuorumPhase {
            match s.phase {
                Some(SubStatePhase::Alert) => Some((
                    FsmState { phase: Some(SubStatePhase::Data), ..s },
                    seq![],
                )),
                Some(SubStatePhase::Data) => Some((
                    FsmState { phase: Some(SubStatePhase::Monitor), ..s },
                    seq![],
                )),
                Some(SubStatePhase::Monitor) => Some((
                    FsmState {
                        balance: Some(SubStateBalanceMode::OutHandshake),
                        phase: None,
                        ..s
                    },
                    seq![Action::StopSendHeartbeatMessagePhase],
                )),
                None => None,
            }
        } else {
            None
        },
        Some(SubStateBalanceMode::OutHandshake) => if e is Timeout {
            Some((
                FsmState {
                    balance: Some(SubStateBalanceMode::Quorum),
                    quorum: Some(SubStateQuorum::CheckQuorumOut),
                    ..s
                },
                seq![],
            ))
        } else {
            None
        },
        None => None,
    }
}

/// The transition table of the quorum sub-state.
pub open spec fn table_quorum(s: FsmState, e: Event) -> Option<(FsmState, Seq<Action>)> {
    let to_safe_mode = FsmState {
        global: StateGlobal::SafeMode,
        balance: None,
        quorum: None,
        ..s
    };
    match s.quorum {
        Some(SubStateQuorum::CheckQuorumIn) => match e {
            Event::NotApproveQuorum => Some((
                FsmState { quorum: Some(SubStateQuorum::RepeatHandshakeIn), ..s },
                seq![],
            )),
            Event::ApproveQuorum => Some((
                FsmState {
                    balance: Some(SubStateBalanceMode::Phase),
                    phase: Some(SubStatePhase::Alert),
                    quorum: None,
                    ..s
                },
                seq![],
            )),
            Event::NotApproveNotAttempts => Some((to_safe_mode, seq![])),
            _ => None,
        },
        Some(SubStateQuorum::CheckQuorumOut) => match e {
            Event::NotApproveQuorum => Some((
                FsmState { quorum: Some(SubStateQuorum::RepeatHandshakeOut), ..s },
                seq![],
            )),
            Event::ApproveQuorum => Some((
                FsmState { global: StateGlobal::Normal, balance: None, quorum: None, ..s },
                seq![],
            )),
            Event::NotApproveNotAttempts => Some((to_safe_mode, seq![])),
            _ => None,
        },
        Some(SubStateQuorum::RepeatHandshakeIn) => if e is Timeout {
            Some((FsmState { quorum: Some(SubStateQuorum::CheckQuorumIn), ..s }, seq![]))
        } else {
            None
        },
        Some(SubStateQuorum::RepeatHandshakeOut) => if e is Timeout {
            Some((FsmState { quorum: Some(SubStateQuorum::CheckQuorumOut), ..s }, seq![]))
        } else {
            None
        },
        None => None,
    }
}

/// The reason of a refused event.
pub open spec fn refusal_reason(s: FsmState) -> Seq<char> {
    match s.global {
        StateGlobal::Normal => normal_reason(),
        StateGlobal::Start => start_reason(),
        _ => generic_reason(),
    }
}

/// Entry actions for the sub-states that a change from `old` to `new` enters,
/// in the order balance, quorum, normal, safe mode, phase.
pub open spec fn on_entry(old: FsmState, new: FsmState) -> Seq<Action> {
    (if old.balance != new.balance && new.balance is Some {
        seq![Action::OnEntryBalance(new.balance->0)]
    } else {
        seq![]
    }) + (if old.quorum != new.quorum && new.quorum is Some {
        seq![Action::OnEntryQuorum(new.quorum->0)]
    } else {
        seq![]
    }) + (if old.global != new.global && new.global == StateGlobal::Normal {
        seq![Action::OnEntryNormal]
    } else {
        seq![]
    }) + (if old.global != new.global && new.global == StateGlobal::SafeMode {
        seq![Action::OnEntrySafeMode]
    } else {
        seq![]
    }) + (if old.phase != new.phase && new.phase is Some {
        seq![Action::OnEntryPhase(new.phase->0)]
    } else {
        seq![]
    })
}

/// What `step` returns: the next state and all actions, or the refusal reason.
pub open spec fn step_result(s: FsmState, e: Event) -> Result<(FsmState, Seq<Action>), Seq<char>> {
    match table(s, e) {
        Some((next, acts)) => Ok((next, acts + on_entry(s, next))),
        None => Err(refusal_reason(s)),
    }
}

/// Whether a transition matches a result of `step_result`.
pub open spec fn transition_is(t: Transition, r: Result<(FsmState, Seq<Action>), Seq<char>>) -> bool {
    match (t, r) {
        (Transition::Valid(v), Ok((next, acts))) => v.next() == next && v.action_seq() == acts,
        (Transition::Invalid(i), Err(reason)) => i.reason() == reason,
        _ => false,
    }
}

fn valid(change_state: FsmState, actions: Vec<Action>) -> (t: Transition)
    ensures
        t matches Transition::Valid(v) && v.next() == change_state && v.action_seq() == actions@,
{
    Transition::Valid(TransitionValid { change_state, actions })
}

/// A refusal with the reason used by balance mode and safe mode.
fn invalid() -> (t: Transition)
    ensures
        t matches Transition::Invalid(i) && i.reason() == generic_reason(),
{
    Transition::Invalid(TransitionInvalid { invalid: String::from_str("Transición inválida") })
}

impl FsmState {
    /// Dispatch on the global state.
    fn step_inner(&self, event: Event) -> (t: Transition)
        ensures
            transition_is(t, match table(*self, event) {
                Some(r) => Ok(r),
                None => Err(refusal_reason(*self)),
            }),
    {
        match self.global {
            StateGlobal::Start => self.step_start(event),
            StateGlobal::BalanceMode => self.step_balance_mode(event),
            StateGlobal::SafeMode => self.step_safe_mode(event),
            _ => {
                let invalid = TransitionInvalid {
                    invalid: String::from_str(
                        "No hay mas transiciones para ejecutar, una vez dentro de Normal, no se sale nunca",
                    ),
                };
                Transition::Invalid(invalid)
            },
        }
    }

    fn step_start(&self, event: Event) -> (t: Transition)
        requires
            self.global == StateGlobal::Start,
        ensures
            transition_is(t, match table(*self, event) {
                Some(r) => Ok(r),
                None => Err(start_reason()),
            }),
    {
        match event {
            Event::Start => {
                let mut next_fsm = *self;
                next_fsm.global = StateGlobal::BalanceMode;
                next_fsm.balance = Some(SubStateBalanceMode::InitBalanceMode);
                let actions = vec![Action::OnEntryBalance(SubStateBalanceMode::InitBalanceMode)];
                proof {
                    assert(actions@ =~= seq![Action::OnEntryBalance(SubStateBalanceMode::InitBalanceMode)]);
                }
                valid(next_fsm, actions)
            },
            _ => Transition::Invalid(TransitionInvalid { invalid: String::from_str("Invalid") }),
        }
    }

    /// Transitions while the global state is `BalanceMode`.
    fn step_balance_mode(&self, event: Event) -> (t: Transition)
        requires
            self.global == StateGlobal::BalanceMode,
        ensures
            transition_is(t, match table(*self, event) {
                Some(r) => Ok(r),
                None => Err(generic_reason()),
            }),
    {
        let next_fsm = *self;
        match (self.balance, event) {
            (Some(SubStateBalanceMode::InitBalanceMode), Event::BalanceEpochOk) => {
                state_init_balance_mode_event_balance_epoch(next_fsm)
            },
            (Some(SubStateBalanceMode::InitBalanceMode), Event::BalanceEpochNotOk) => {
                state_init_balance_mode_event_balance_epoch_not_ok(next_fsm)
            },
            (Some(SubStateBalanceMode::InHandshake), Event::Timeout) => {
                state_in_handshake_event_timeout(next_fsm)
            },
            (Some(SubStateBalanceMode::Quorum), _) => {
                match (self.quorum, event) {
                    (Some(SubStateQuorum::CheckQuorumIn), Event::NotApproveQuorum) => {
                        state_check_quorum_in_event_not_approve(next_fsm)
                    },
                    (Some(SubStateQuorum::CheckQuorumIn), Event::ApproveQuorum) => {
                        state_check_quorum_in_event_approve_quorum(next_fsm)
                    },
                    (Some(SubStateQuorum::CheckQuorumIn), Event::NotApproveNotAttempts) => {
                        state_check_quorum_event_not_and_not(next_fsm)
                    },
                    (Some(SubStateQuorum::CheckQuorumOut), Event::NotApproveQuorum) => {
                        state_check_quorum_out_event_not_approve(next_fsm)
                    },
                    (Some(SubStateQuorum::CheckQuorumOut), Event::ApproveQuorum) => {
                        state_check_quorum_out_event_approve_quorum(next_fsm)
                    },
                    (Some(SubStateQuorum::CheckQuorumOut), Event::NotApproveNotAttempts) => {
                        state_check_quorum_event_not_and_not(next_fsm)
                    },
                    (Some(SubStateQuorum::RepeatHandshakeIn), Event::Timeout) => {
                        state_repeat_handshake_in(next_fsm)
                    },
                    (Some(SubStateQuorum::RepeatHandshakeOut), Event::Timeout) => {
                        state_repeat_handshake_out(next_fsm)
                    },
                    _ => invalid(),
                }
            },
            (Some(SubStateBalanceMode::Phase), _) => {
                match (self.phase, event) {
                    (Some(SubStatePhase::Alert), Event::Timeout | Event::QuorumPhase) => {
                        state_alert_event_timeout_or_quorum(next_fsm)
                    },
                    (Some(SubStatePhase::Data), Event::Timeout | Event::QuorumPhase) => {
                        state_data_event_timeout_or_quorum(next_fsm)
                    },
                    (Some(SubStatePhase::Monitor), Event::Timeout | Event::QuorumPhase) => {
                        state_monitor_event_timeout_or_quorum(next_fsm)
                    },
                    _ => invalid(),
                }
            },
            (Some(SubStateBalanceMode::OutHandshake), Event::Timeout) => {
                state_out_handshake_event_timeout(next_fsm)
            },
            _ => invalid(),
        }
    }

    /// Transitions while the global state is `SafeMode`.
    fn step_safe_mode(&self, event: Event) -> (t: Transition)
        requires
            self.global == StateGlobal::SafeMode,
        ensures
            transition_is(t, match table(*self, event) {
                Some(r) => Ok(r),
                None => Err(generic_reason()),
            }),
    {
        match event {
            Event::Timeout | Event::QuorumSafeMode => {
                let next_fsm = *self;
                let actions = vec![Action::StopSendHeartbeatMessageSafeMode];
                proof {
                    assert(actions@ =~= seq![Action::StopSendHeartbeatMessageSafeMode]);
                }
                valid(next_fsm, actions)
            },
            _ => Transition::Invalid(
                TransitionInvalid { invalid: String::from_str("Transición inválida") },
            ),
        }
    }

    /// Applies `event`: the transition of the table followed by the entry actions
    /// of every sub-state that the transition enters.
    pub fn step(&self, event: Event) -> (t: Transition)
        ensures
            transition_is(t, step_result(*self, event)),
    {
        let transition = self.step_inner(event);
        match transition {
            Transition::Valid(t) => {
                let TransitionValid { change_state, mut actions } = t;
                let mut entry_actions = compute_on_entry(self, &change_state);
                actions.append(&mut entry_actions);
                valid(change_state, actions)
            },
            invalid => invalid,
        }
    }
}

/// Helper for the transitions below: a valid transition to `next` with no own actions.
fn to(next: FsmState) -> (t: Transition)
    ensures
        t matches Transition::Valid(v) && v.next() == next && v.action_seq() == Seq::<Action>::empty(),
{
    let actions: Vec<Action> = Vec::new();
    valid(next, actions)
}

/// InitBalanceMode -> InHandshake.
fn state_init_balance_mode_event_balance_epoch(mut next_fsm: FsmState) -> (t: Transition)
    ensures
        transition_is(t, Ok((FsmState { balance: Some(SubStateBalanceMode::InHandshake), ..next_fsm }, seq![]))),
{
    next_fsm.balance = Some(SubStateBalanceMode::InHandshake);
    to(next_fsm)
}

/// InitBalanceMode -> SafeMode.
fn state_init_balance_mode_event_balance_epoch_not_ok(mut next_fsm: FsmState) -> (t: Transition)
    ensures
        transition_is(t, Ok((FsmState { balance: None, global: StateGlobal::SafeMode, ..next_fsm }, seq![]))),
{
    next_fsm.balance = None;
    next_fsm.global = StateGlobal::SafeMode;
    to(next_fsm)
}

/// InHandshake -> Quorum (CheckQuorumIn).
fn state_in_handshake_event_timeout(mut next_fsm: FsmState) -> (t: Transition)
    ensures
        transition_is(t, Ok((FsmState {
            balance: Some(SubStateBalanceMode::Quorum),
            quorum: Some(SubStateQuorum::CheckQuorumIn),
            ..next_fsm
        }, seq![]))),
{
    next_fsm.balance = Some(SubStateBalanceMode::Quorum);
    next_fsm.quorum = Some(SubStateQuorum::CheckQuorumIn);
    to(next_fsm)
}

/// CheckQuorumIn -> RepeatHandshakeIn.
fn state_check_quorum_in_event_not_approve(mut next_fsm: FsmState) -> (t: Transition)
    ensures
        transition_is(t, Ok((FsmState { quorum: Some(SubStateQuorum::RepeatHandshakeIn), ..next_fsm }, seq![]))),
{
    next_fsm.quorum = Some(SubStateQuorum::RepeatHandshakeIn);
    to(next_fsm)
}

/// CheckQuorumOut -> RepeatHandshakeOut.
fn state_check_quorum_out_event_not_approve(mut next_fsm: FsmState) -> (t: Transition)
    ensures
        transition_is(t, Ok((FsmState { quorum: Some(SubStateQuorum::RepeatHandshakeOut), ..next_fsm }, seq![]))),
{
    next_fsm.quorum = Some(SubStateQuorum::RepeatHandshakeOut);
    to(next_fsm)
}

/// CheckQuorumIn -> Phase (Alert).
fn state_check_quorum_in_event_approve_quorum(mut next_fsm: FsmState) -> (t: Transition)
    ensures
        transition_is(t, Ok((FsmState {
            balance: Some(SubStateBalanceMode::Phase),
            phase: Some(SubStatePhase::Alert),
            quorum: None,
            ..next_fsm
        }, seq![]))),
{
    next_fsm.balance = Some(SubStateBalanceMode::Phase);
    next_fsm.phase = Some(SubStatePhase::Alert);
    next_fsm.quorum = None;
    to(next_fsm)
}

/// CheckQuorumOut -> Normal: balancing is over, so its sub-states are left.
fn state_check_quorum_out_event_approve_quorum(mut next_fsm: FsmState) -> (t: Transition)
    ensures
        transition_is(t, Ok((FsmState {
            global: StateGlobal::Normal,
            balance: None,
            quorum: None,
            ..next_fsm
        }, seq![]))),
{
    next_fsm.quorum = None;
    next_fsm.balance = None;
    next_fsm.global = StateGlobal::Normal;
    to(next_fsm)
}

/// CheckQuorum -> SafeMode (no quorum and no attempts left).
fn state_check_quorum_event_not_and_not(mut next_fsm: FsmState) -> (t: Transition)
    ensures
        transition_is(t, Ok((FsmState {
            global: StateGlobal::SafeMode,
            balance: None,
            quorum: None,
            ..next_fsm
        }, seq![]))),
{
    next_fsm.global = StateGlobal::SafeMode;
    next_fsm.balance = None;
    next_fsm.quorum = None;
    to(next_fsm)
}

/// RepeatHandshakeIn -> CheckQuorumIn.
fn state_repeat_handshake_in(mut next_fsm: FsmState) -> (t: Transition)
    ensures
        transition_is(t, Ok((FsmState { quorum: Some(SubStateQuorum::CheckQuorumIn), ..next_fsm }, seq![]))),
{
    next_fsm.quorum = Some(SubStateQuorum::CheckQuorumIn);
    to(next_fsm)
}

/// RepeatHandshakeOut -> CheckQuorumOut.
fn state_repeat_handshake_out(mut next_fsm: FsmState) -> (t: Transition)
    ensures
        transition_is(t, Ok((FsmState { quorum: Some(SubStateQuorum::CheckQuorumOut), ..next_fsm }, seq![]))),
{
    next_fsm.quorum = Some(SubStateQuorum::CheckQuorumOut);
    to(next_fsm)
}

/// Alert -> Data.
fn state_alert_event_timeout_or_quorum(mut next_fsm: FsmState) -> (t: Transition)
    ensures
        transition_is(t, Ok((FsmState { phase: Some(SubStatePhase::Data), ..next_fsm }, seq![]))),
{
    next_fsm.phase = Some(SubStatePhase::Data);
    to(next_fsm)
}

/// Data -> Monitor.
fn state_data_event_timeout_or_quorum(mut next_fsm: FsmState) -> (t: Transition)
    ensures
        transition_is(t, Ok((FsmState { phase: Some(SubStatePhase::Monitor), ..next_fsm }, seq![]))),
{
    next_fsm.phase = Some(SubStatePhase::Monitor);
    to(next_fsm)
}

/// Monitor -> OutHandshake; the phase heartbeats stop.
fn state_monitor_event_timeout_or_quorum(mut next_fsm: FsmState) -> (t: Transition)
    ensures
        transition_is(t, Ok((FsmState {
            balance: Some(SubStateBalanceMode::OutHandshake),
            phase: None,
            ..next_fsm
        }, seq![Action::StopSendHeartbeatMessagePhase]))),
{
    next_fsm.balance = Some(SubStateBalanceMode::OutHandshake);
    next_fsm.phase = None;
    let actions = vec![Action::StopSendHeartbeatMessagePhase];
    proof {
        assert(actions@ =~= seq![Action::StopSendHeartbeatMessagePhase]);
    }
    valid(next_fsm, actions)
}

/// OutHandshake -> Quorum (CheckQuorumOut).
fn state_out_handshake_event_timeout(mut next_fsm: FsmState) -> (t: Transition)
    ensures
        transition_is(t, Ok((FsmState {
            balance: Some(SubStateBalanceMode::Quorum),
            quorum: Some(SubStateQuorum::CheckQuorumOut),
            ..next_fsm
        }, seq![]))),
{
    next_fsm.balance = Some(SubStateBalanceMode::Quorum);
    next_fsm.quorum = Some(SubStateQuorum::CheckQuorumOut);
    to(next_fsm)
}

/// The entry actions of the sub-states entered when going from `old` to `new`.
pub fn compute_on_entry(old: &FsmState, new: &FsmState) -> (actions: Vec<Action>)
    ensures
        actions@ == on_entry(*old, *new),
{
    let mut actions: Vec<Action> = Vec::new();
    if old.balance != new.balance {
        if let Some(s) = new.balance {
            actions.push(Action::OnEntryBalance(s));
        }
    }
    if old.quorum != new.quorum {
        if let Some(s) = new.quorum {
            actions.push(Action::OnEntryQuorum(s));
        }
    }
    if old.global != new.global && new.global == StateGlobal::Normal {
        actions.push(Action::OnEntryNormal);
    }
    if old.global != new.global && new.global == StateGlobal::SafeMode {
        actions.push(Action::OnEntrySafeMode);
    }
    if old.phase != new.phase {
        if let Some(s) = new.phase {
            actions.push(Action::OnEntryPhase(s));
        }
    }
    proof {
        assert(actions@ =~= on_entry(*old, *new));
    }
    actions
}

/// Where the balancing session stands, as seen by the runtime.
#[derive(Debug, Clone, Copy, PartialEq, Eq, Structural)]
pub enum StateOfSession {
    NotStarted,
    InHandshake,
    Quorum,
    RepeatHandshake,
    OutHandshake,
    PhaseAlert,
    PhaseData,
    PhaseMonitor,
    SafeMode,
}

/// Bookkeeping of a balancing session: which hubs reported an empty queue,
/// which hubs answered the handshake (and with which epoch), the session state
/// and how many handshake rounds were repeated.
pub struct UpdateSession {
    empty_hash: StringMap<bool>,
    handshake_hash: StringMap<u32>,
    state: StateOfSession,
    total_attempts: u64,
}

impl UpdateSession {
    pub closed spec fn wf(&self) -> bool {
        self.empty_hash.wf() && self.handshake_hash.wf()
    }

    /// Hubs that reported an empty queue.
    pub closed spec fn empties(&self) -> Map<Seq<char>, bool> {
        self.empty_hash@
    }

    /// Hubs that answered the handshake, with the epoch they answered.
    pub closed spec fn handshakes(&self) -> Map<Seq<char>, u32> {
        self.handshake_hash@
    }

    pub closed spec fn session_state(&self) -> StateOfSession {
        self.state
    }

    /// Number of repeated handshake rounds.
    pub closed spec fn attempts(&self) -> nat {
        self.total_attempts as nat
    }

    pub fn new() -> (s: Self)
        ensures
            s.wf(),
            s.empties() == Map::<Seq<char>, bool>::empty(),
            s.handshakes() == Map::<Seq<char>, u32>::empty(),
            s.session_state() == StateOfSession::NotStarted,
            s.attempts() == 0,
    {
        UpdateSession {
            empty_hash: StringMap::new(),
            handshake_hash: StringMap::new(),
            state: StateOfSession::NotStarted,
            total_attempts: 0,
        }
    }

    pub fn reset_total_attempts(&mut self)
        requires
            old(self).wf(),
        ensures
            final(self).wf(),
            final(self).attempts() == 0,
            final(self).empties() == old(self).empties(),
            final(self).handshakes() == old(self).handshakes(),
            final(self).session_state() == old(self).session_state(),
    {
        self.total_attempts = 0;
    }

    pub fn reset_empty_hash(&mut self)
        requires
            old(self).wf(),
        ensures
            final(self).wf(),
            final(self).empties() == Map::<Seq<char>, bool>::empty(),
            final(self).handshakes() == old(self).handshakes(),
            final(self).session_state() == old(self).session_state(),
            final(self).attempts() == old(self).attempts(),
    {
        self.empty_hash.clear();
    }

    pub fn reset_handshake_hash(&mut self)
        requires
            old(self).wf(),
        ensures
            final(self).wf(),
            final(self).handshakes() == Map::<Seq<char>, u32>::empty(),
            final(self).empties() == old(self).empties(),
            final(self).session_state() == old(self).session_state(),
            final(self).attempts() == old(self).attempts(),
    {
        self.handshake_hash.clear();
    }

    /// Records an empty-queue report; the first report of a hub is kept.
    pub fn insert_empty(&mut self, key: String, value: bool)
        requires
            old(self).wf(),
        ensures
            final(self).wf(),
            final(self).empties() == if old(self).empties().contains_key(key@) {
                old(self).empties()
            } else {
                old(self).empties().insert(key@, value)
            },
            final(self).handshakes() == old(self).handshakes(),
            final(self).session_state() == old(self).session_state(),
            final(self).attempts() == old(self).attempts(),
    {
        let _ = self.empty_hash.insert_if_absent(key, value);
    }

    /// Records a handshake answer; the first answer of a hub is kept.
    pub fn insert_handshake(&mut self, key: String, value: u32)
        requires
            old(self).wf(),
        ensures
            final(self).wf(),
            final(self).handshakes() == if old(self).handshakes().contains_key(key@) {
                old(self).handshakes()
            } else {
                old(self).handshakes().insert(key@, value)
            },
            final(self).empties() == old(self).empties(),
            final(self).session_state() == old(self).session_state(),
            final(self).attempts() == old(self).attempts(),
    {
        let _ = self.handshake_hash.insert_if_absent(key, value);
    }

    pub fn set_state(&mut self, state: StateOfSession)
        requires
            old(self).wf(),
        ensures
            final(self).wf(),
            final(self).session_state() == state,
            final(self).empties() == old(self).empties(),
            final(self).handshakes() == old(self).handshakes(),
            final(self).attempts() == old(self).attempts(),
    {
        self.state = state;
    }

    /// Counts one more repeated handshake round (the count stops at `u64::MAX`).
    pub fn increment_attempts(&mut self)
        requires
            old(self).wf(),
        ensures
            final(self).wf(),
            final(self).attempts() == if old(self).attempts() < u64::MAX {
                old(self).attempts() + 1
            } else {
                old(self).attempts()
            },
            final(self).empties() == old(self).empties(),
            final(self).handshakes() == old(self).handshakes(),
            final(self).session_state() == old(self).session_state(),
    {
        if self.total_attempts < u64::MAX {
            self.total_attempts = self.total_attempts + 1;
        }
    }

    pub fn get_state(&self) -> (s: &StateOfSession)
        ensures
            *s == self.session_state(),
    {
        &self.state
    }

    pub fn get_total_handshake(&self) -> (n: u64)
        requires
            self.wf(),
        ensures
            n == self.handshakes().len(),
    {
        self.handshake_hash.len() as u64
    }

    pub fn get_total_attempts(&self) -> (n: u64)
        ensures
            n == self.attempts(),
    {
        self.total_attempts
    }

    pub fn get_total_empty(&self) -> (n: u64)
        requires
            self.wf(),
        ensures
            n == self.empties().len(),
    {
        self.empty_hash.len() as u64
    }
}

} // verus!
