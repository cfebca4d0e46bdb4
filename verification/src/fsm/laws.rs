//! Properties of the state machine that hold across all states and events.

use vstd::prelude::*;
use crate::fsm::domain::{
    Action, Event, FsmState, StateGlobal, SubStateBalanceMode, SubStatePhase, SubStateQuorum, generic_reason,
    initial_state, normal_reason,
    on_entry, step_result,
};

verus! {

/// Parents and children agree: a quorum sub-state only inside `Quorum`, a phase
/// only inside `Phase`, and a balance sub-state exactly while balancing.
pub open spec fn well_formed(s: FsmState) -> bool {
    &&& (s.global == StateGlobal::BalanceMode <==> s.balance is Some)
    &&& (s.quorum is Some <==> s.balance == Some(SubStateBalanceMode::Quorum))
    &&& (s.phase is Some <==> s.balance == Some(SubStateBalanceMode::Phase))
}

/// The state reached from `s` by applying `events` in order, skipping refused ones.
pub open spec fn run(s: FsmState, events: Seq<Event>) -> FsmState
    decreases events.len(),
{
    if events.len() == 0 {
        s
    } else {
        let next = match step_result(s, events[0]) {
            Ok((n, _)) => n,
            Err(_) => s,
        };
        run(next, events.drop_first())
    }
}

/// Once in `Normal`, every event is refused, with a reason that names `Normal`.
pub proof fn law_normal_is_final(s: FsmState, e: Event)
    requires
        s.global == StateGlobal::Normal,
    ensures
        step_result(s, e) == Err::<(FsmState, Seq<Action>), Seq<char>>(normal_reason()),
{
}

/// In safe mode an accepted event leaves the state unchanged and only stops the
/// safe-mode heartbeats; `Timeout` and `QuorumSafeMode` are the accepted events.
pub proof fn law_safe_mode_is_stable(s: FsmState, e: Event)
    requires
        s.global == StateGlobal::SafeMode,
    ensures
        (e is Timeout || e is QuorumSafeMode) ==> step_result(s, e) == Ok::<(FsmState, Seq<Action>), Seq<char>>(
            (s, seq![Action::StopSendHeartbeatMessageSafeMode]),
        ),
        !(e is Timeout || e is QuorumSafeMode) ==> step_result(s, e) == Err::<(FsmState, Seq<Action>), Seq<char>>(
            generic_reason(),
        ),
{
    assert(on_entry(s, s) =~= Seq::<Action>::empty());
}

/// A state that does not change yields no entry actions.
pub proof fn law_no_change_no_entry(s: FsmState)
    ensures
        on_entry(s, s) == Seq::<Action>::empty(),
{
    assert(on_entry(s, s) =~= Seq::<Action>::empty());
}

/// The start state accepts only `Event::Start`, which leads to the first
/// sub-state of balance mode.
pub proof fn law_start_accepts_only_start(s: FsmState, e: Event)
    requires
        s.global == StateGlobal::Start,
    ensures
        step_result(s, e) is Ok <==> e is Start,
        e is Start ==> (step_result(s, e) matches Ok((n, _)) && n.global == StateGlobal::BalanceMode
            && n.balance == Some(SubStateBalanceMode::InitBalanceMode)),
{
}

/// A step from a well-formed state leads to a well-formed state: a child is
/// set exactly while its parent is active, `Normal` and safe mode included.
pub proof fn law_step_keeps_well_formed(s: FsmState, e: Event)
    requires
        well_formed(s),
    ensures
        step_result(s, e) matches Ok((n, _)) ==> well_formed(n),
{
}

/// Every state reached from the initial state is well formed.
pub proof fn law_reachable_well_formed(events: Seq<Event>)
    ensures
        well_formed(run(initial_state(), events)),
{
    lemma_run_well_formed(initial_state(), events);
}

proof fn lemma_run_well_formed(s: FsmState, events: Seq<Event>)
    requires
        well_formed(s),
    ensures
        well_formed(run(s, events)),
    decreases events.len(),
{
    if events.len() > 0 {
        law_step_keeps_well_formed(s, events[0]);
        let next = match step_result(s, events[0]) {
            Ok((n, _)) => n,
            Err(_) => s,
        };
        lemma_run_well_formed(next, events.drop_first());
    }
}

/// During a phase of balance mode, the quorum of empty queues ends the phase
/// exactly as its timeout does: alert gives way to data, data to monitoring,
/// and monitoring to the leaving handshake (the phase heartbeats stop); each
/// entered sub-state's entry action follows.
pub proof fn law_quorum_ends_phase_like_timeout(s: FsmState)
    requires
        s.global == StateGlobal::BalanceMode,
        s.balance == Some(SubStateBalanceMode::Phase),
        s.phase is Some,
    ensures
        step_result(s, Event::QuorumPhase) == step_result(s, Event::Timeout),
        s.phase == Some(SubStatePhase::Alert) ==> step_result(s, Event::QuorumPhase) == Ok::<
            (FsmState, Seq<Action>),
            Seq<char>,
        >(((FsmState { phase: Some(SubStatePhase::Data), ..s }), seq![Action::OnEntryPhase(SubStatePhase::Data)])),
        s.phase == Some(SubStatePhase::Data) ==> step_result(s, Event::QuorumPhase) == Ok::<
            (FsmState, Seq<Action>),
            Seq<char>,
        >(
            (
                (FsmState { phase: Some(SubStatePhase::Monitor), ..s }),
                seq![Action::OnEntryPhase(SubStatePhase::Monitor)],
            ),
        ),
        s.phase == Some(SubStatePhase::Monitor) ==> step_result(s, Event::QuorumPhase) == Ok::<
            (FsmState, Seq<Action>),
            Seq<char>,
        >(
            (
                (FsmState { balance: Some(SubStateBalanceMode::OutHandshake), phase: None, ..s }),
                seq![
                    Action::StopSendHeartbeatMessagePhase,
                    Action::OnEntryBalance(SubStateBalanceMode::OutHandshake),
                ],
            ),
        ),
{
    if s.phase == Some(SubStatePhase::Alert) {
        assert(on_entry(s, FsmState { phase: Some(SubStatePhase::Data), ..s }) =~= seq![
            Action::OnEntryPhase(SubStatePhase::Data),
        ]);
    }
    if s.phase == Some(SubStatePhase::Data) {
        assert(on_entry(s, FsmState { phase: Some(SubStatePhase::Monitor), ..s }) =~= seq![
            Action::OnEntryPhase(SubStatePhase::Monitor),
        ]);
    }
    assert(on_entry(s, FsmState { balance: Some(SubStateBalanceMode::OutHandshake), phase: None, ..s }) =~= seq![
        Action::OnEntryBalance(SubStateBalanceMode::OutHandshake),
    ]);
    assert(seq![Action::StopSendHeartbeatMessagePhase] + seq![
        Action::OnEntryBalance(SubStateBalanceMode::OutHandshake),
    ] =~= seq![Action::StopSendHeartbeatMessagePhase, Action::OnEntryBalance(SubStateBalanceMode::OutHandshake)]);
    assert(Seq::<Action>::empty() + seq![Action::OnEntryPhase(SubStatePhase::Data)] =~= seq![
        Action::OnEntryPhase(SubStatePhase::Data),
    ]);
    assert(Seq::<Action>::empty() + seq![Action::OnEntryPhase(SubStatePhase::Monitor)] =~= seq![
        Action::OnEntryPhase(SubStatePhase::Monitor),
    ]);
}

/// The way into balancing: a stored epoch leads to the entering handshake, a
/// missing one to safe mode; each handshake's timeout leads to the matching
/// quorum check; nothing else is accepted there.
pub proof fn law_balancing_path(s: FsmState, e: Event)
    requires
        well_formed(s),
        s.global == StateGlobal::BalanceMode,
    ensures
        s.balance == Some(SubStateBalanceMode::InitBalanceMode) ==> {
            &&& e is BalanceEpochOk ==> (step_result(s, e) matches Ok((n, a)) && n == (FsmState {
                balance: Some(SubStateBalanceMode::InHandshake),
                ..s
            }) && a.contains(Action::OnEntryBalance(SubStateBalanceMode::InHandshake)))
            &&& e is BalanceEpochNotOk ==> (step_result(s, e) matches Ok((n, a)) && n == (FsmState {
                global: StateGlobal::SafeMode,
                balance: None,
                ..s
            }) && a.contains(Action::OnEntrySafeMode))
            &&& !(e is BalanceEpochOk || e is BalanceEpochNotOk) ==> step_result(s, e) is Err
        },
        s.balance == Some(SubStateBalanceMode::InHandshake) ==> {
            &&& e is Timeout ==> (step_result(s, e) matches Ok((n, a)) && n == (FsmState {
                balance: Some(SubStateBalanceMode::Quorum),
                quorum: Some(SubStateQuorum::CheckQuorumIn),
                ..s
            }) && a.contains(Action::OnEntryQuorum(SubStateQuorum::CheckQuorumIn)))
            &&& !(e is Timeout) ==> step_result(s, e) is Err
        },
        s.balance == Some(SubStateBalanceMode::OutHandshake) ==> {
            &&& e is Timeout ==> (step_result(s, e) matches Ok((n, a)) && n == (FsmState {
                balance: Some(SubStateBalanceMode::Quorum),
                quorum: Some(SubStateQuorum::CheckQuorumOut),
                ..s
            }) && a.contains(Action::OnEntryQuorum(SubStateQuorum::CheckQuorumOut)))
            &&& !(e is Timeout) ==> step_result(s, e) is Err
        },
{
    if s.balance == Some(SubStateBalanceMode::InitBalanceMode) {
        if e is BalanceEpochOk {
            let n = FsmState { balance: Some(SubStateBalanceMode::InHandshake), ..s };
            assert(on_entry(s, n)[0] == Action::OnEntryBalance(SubStateBalanceMode::InHandshake));
        }
        if e is BalanceEpochNotOk {
            let n = FsmState { global: StateGlobal::SafeMode, balance: None, ..s };
            assert(on_entry(s, n) =~= seq![Action::OnEntrySafeMode]);
            assert(on_entry(s, n)[0] == Action::OnEntrySafeMode);
            assert(Seq::<Action>::empty() + on_entry(s, n) =~= on_entry(s, n));
        }
    }
    if s.balance == Some(SubStateBalanceMode::InHandshake) && e is Timeout {
        let n = FsmState { balance: Some(SubStateBalanceMode::Quorum), quorum: Some(SubStateQuorum::CheckQuorumIn), ..s };
        assert(on_entry(s, n) =~= seq![
            Action::OnEntryBalance(SubStateBalanceMode::Quorum),
            Action::OnEntryQuorum(SubStateQuorum::CheckQuorumIn),
        ]);
        assert(on_entry(s, n)[1] == Action::OnEntryQuorum(SubStateQuorum::CheckQuorumIn));
    }
    if s.balance == Some(SubStateBalanceMode::OutHandshake) && e is Timeout {
        let n = FsmState {
            balance: Some(SubStateBalanceMode::Quorum),
            quorum: Some(SubStateQuorum::CheckQuorumOut),
            ..s
        };
        assert(on_entry(s, n) =~= seq![
            Action::OnEntryBalance(SubStateBalanceMode::Quorum),
            Action::OnEntryQuorum(SubStateQuorum::CheckQuorumOut),
        ]);
        assert(on_entry(s, n)[1] == Action::OnEntryQuorum(SubStateQuorum::CheckQuorumOut));
    }
}

/// The quorum checks: an approved entering quorum starts the alert phase, an
/// approved leaving quorum ends balancing in normal operation, a refused
/// quorum repeats the handshake (whose timeout checks again), and a refused
/// quorum with no attempts left leads to safe mode with no sub-state.
pub proof fn law_quorum_outcomes(s: FsmState, e: Event)
    requires
        well_formed(s),
        s.global == StateGlobal::BalanceMode,
        s.balance == Some(SubStateBalanceMode::Quorum),
    ensures
        (s.quorum == Some(SubStateQuorum::CheckQuorumIn) && e is ApproveQuorum) ==> (step_result(s, e) matches Ok(
            (n, _),
        ) && n == (FsmState {
            balance: Some(SubStateBalanceMode::Phase),
            phase: Some(SubStatePhase::Alert),
            quorum: None,
            ..s
        })),
        (s.quorum == Some(SubStateQuorum::CheckQuorumOut) && e is ApproveQuorum) ==> (step_result(s, e) matches Ok(
            (n, _),
        ) && n == (FsmState { global: StateGlobal::Normal, balance: None, quorum: None, phase: None })),
        (s.quorum == Some(SubStateQuorum::CheckQuorumIn) && e is NotApproveQuorum) ==> (step_result(s, e) matches Ok(
            (n, _),
        ) && n == (FsmState { quorum: Some(SubStateQuorum::RepeatHandshakeIn), ..s })),
        (s.quorum == Some(SubStateQuorum::CheckQuorumOut) && e is NotApproveQuorum) ==> (step_result(s, e) matches Ok(
            (n, _),
        ) && n == (FsmState { quorum: Some(SubStateQuorum::RepeatHandshakeOut), ..s })),
        ((s.quorum == Some(SubStateQuorum::CheckQuorumIn) || s.quorum == Some(SubStateQuorum::CheckQuorumOut))
            && e is NotApproveNotAttempts) ==> (step_result(s, e) matches Ok((n, _)) && n == (FsmState {
            global: StateGlobal::SafeMode,
            balance: None,
            quorum: None,
            phase: None,
        })),
        (s.quorum == Some(SubStateQuorum::RepeatHandshakeIn) && e is Timeout) ==> (step_result(s, e) matches Ok(
            (n, _),
        ) && n == (FsmState { quorum: Some(SubStateQuorum::CheckQuorumIn), ..s })),
        (s.quorum == Some(SubStateQuorum::RepeatHandshakeOut) && e is Timeout) ==> (step_result(s, e) matches Ok(
            (n, _),
        ) && n == (FsmState { quorum: Some(SubStateQuorum::CheckQuorumOut), ..s })),
{
}

} // verus!
