//! Decisions of the balancing runtime: the quorum rules, what each action of
//! the state machine sends and to whom, and how incoming messages update the
//! session. The runtime delivers the returned outputs, in order.

use vstd::prelude::*;
use crate::fsm::domain::{
    Action, Event, FsmServiceCommand, FsmServiceResponse, StateOfSession, SubStateBalanceMode,
    SubStatePhase, SubStateQuorum, UpdateSession,
};
use crate::message::domain::{
    same_meta, HandshakeToHub, HubMessage, MessageStateBalanceMode, MessageStateNormal,
    MessageStateSafeMode, Metadata, PhaseNotification, Ping,
};
use crate::network::domain::NetworkManager;

verus! {

/// Share of the hubs (in percent) that must answer the first handshake round.
pub const PERCENTAGE: u64 = 80;

/// Share of the hubs (in percent) that must report an empty queue to end a phase.
pub const PHASE_QUORUM: u64 = 80;

/// Share of the hubs (in percent) that must report an empty queue to leave safe mode.
pub const SAFE_MODE_QUORUM: u64 = 70;

/// Longest a phase may last, in seconds.
pub const PHASE_MAX_DURATION: u64 = 600;

/// Longest safe mode may last, in seconds.
pub const SAFE_MODE_MAX_DURATION: u64 = 900;

/// How long the hubs have to answer a handshake, in seconds.
pub const HANDSHAKE_WINDOW: u64 = 180;

/// One effect for the runtime to carry out.
#[derive(Debug, Clone, PartialEq, Eq)]
pub enum FsmOutput {
    ToCore(FsmServiceResponse),
    ToFsm(Event),
    ToTimer(Event),
    ToHeartbeat(Action),
}

/// What the balancing runtime knows of the device.
#[derive(Debug, Clone)]
pub struct FsmContext {
    pub id_edge: String,
}

/// The current Unix time in seconds, from `chrono::Utc::now().timestamp()`.
/// It depends on the clock, so nothing is stated of it. `Utc::now` panics when
/// the system clock reads before 1970: a property of the machine, not of any
/// argument, so no `requires` can rule it out.
#[verifier::external_body]
fn unix_now() -> (t: i64) {
    chrono::Utc::now().timestamp()
}

/// A random number in `low..=high`, from `fastrand::u32`. The crate's source
/// draws it inside the range and panics only on an empty range.
#[verifier::external_body]
fn random_u32_in(low: u32, high: u32) -> (r: u32)
    requires
        low <= high,
    ensures
        low <= r <= high,
{
    fastrand::u32(low..=high)
}

/// Metadata from this edge to `destination`, stamped with the current time.
pub fn build_metadata(ctx: &FsmContext, destination: &str) -> (m: Metadata)
    ensures
        m.sender_user_id@ == ctx.id_edge@,
        m.destination_id@ == destination@,
{
    Metadata {
        sender_user_id: ctx.id_edge.clone(),
        destination_id: String::from_str(destination),
        timestamp: unix_now(),
    }
}

/// Metadata from this edge to every hub.
pub open spec fn broadcast_meta(m: Metadata, id: Seq<char>) -> bool {
    m.sender_user_id@ == id && m.destination_id@ == "all"@
}

/// The share (in percent) of the hubs that must answer after `attempts`
/// repeated rounds: five points less per round after the first.
pub open spec fn handshake_threshold(attempts: nat) -> int {
    PERCENTAGE - (attempts * 5 - 5)
}

/// Whether enough hubs answered the handshake: the threshold must stay above
/// ten points and the answers must reach it (with no hubs known, any answer does).
pub open spec fn handshake_quorum(handshakes: nat, total_hubs: nat, attempts: nat) -> bool {
    let t = handshake_threshold(attempts);
    t > 10 && if total_hubs == 0 {
        handshakes > 0
    } else {
        100 * handshakes >= t * total_hubs
    }
}

/// Whether at least `percent` percent of the hubs reported an empty queue.
pub open spec fn empty_quorum(empties: nat, total_hubs: nat, percent: nat) -> bool {
    100 * empties >= percent * total_hubs
}

/// The quorum rules: the handshake threshold starts at 80% and drops five
/// points per repeated round; more answers never turn an approval into a
/// refusal; no answer is never a quorum; when every hub answered, the quorum is
/// reached while the threshold is above ten points; and the empty-queue quorum
/// is reached once every hub reported, and never lost by further reports.
pub proof fn law_quorum_rules(h1: nat, h2: nat, total: nat, attempts: nat, percent: nat)
    ensures
        handshake_threshold(1) == 80,
        handshake_threshold(attempts + 1) == handshake_threshold(attempts) - 5,
        h1 <= h2 && handshake_quorum(h1, total, attempts) ==> handshake_quorum(h2, total, attempts),
        !handshake_quorum(0, total, attempts),
        total > 0 && h1 >= total && 10 < handshake_threshold(attempts) <= 100 ==> handshake_quorum(
            h1,
            total,
            attempts,
        ),
        h1 <= h2 && empty_quorum(h1, total, percent) ==> empty_quorum(h2, total, percent),
        percent <= 100 && h1 >= total ==> empty_quorum(h1, total, percent),
        total > 0 && percent > 0 ==> !empty_quorum(0, total, percent),
{
    let t = handshake_threshold(attempts);
    if t > 10 && total > 0 {
        assert(t * total > 0) by (nonlinear_arith)
            requires
                t > 10,
                total > 0,
        ;
    }
    if h1 <= h2 && handshake_quorum(h1, total, attempts) && total > 0 {
        assert(100 * h2 >= 100 * h1) by (nonlinear_arith)
            requires
                h1 <= h2,
        ;
    }
    if total > 0 && h1 >= total && 10 < t <= 100 {
        assert(100 * h1 >= t * total) by (nonlinear_arith)
            requires
                h1 >= total,
                t <= 100,
                t > 10,
        ;
    }
    if h1 <= h2 {
        assert(100 * h2 >= 100 * h1) by (nonlinear_arith)
            requires
                h1 <= h2,
        ;
    }
    if percent <= 100 && h1 >= total {
        assert(100 * h1 >= percent * total) by (nonlinear_arith)
            requires
                h1 >= total,
                percent <= 100,
        ;
    }
    if total > 0 && percent > 0 {
        assert(percent * total > 0) by (nonlinear_arith)
            requires
                total > 0,
                percent > 0,
        ;
    }
}

/// A map with `k` set to `v` unless `k` already has a value.
pub open spec fn keep_first<V>(m: Map<Seq<char>, V>, k: Seq<char>, v: V) -> Map<Seq<char>, V> {
    if m.contains_key(k) {
        m
    } else {
        m.insert(k, v)
    }
}

/// Decides the handshake quorum: out of attempts, approved, or refused (the
/// answers are then forgotten for the next round).
pub fn quorum_algorithm(session: &mut UpdateSession, max_attempts: u64, total_hubs: u64) -> (e: Event)
    requires
        old(session).wf(),
    ensures
        final(session).wf(),
        final(session).empties() == old(session).empties(),
        final(session).session_state() == old(session).session_state(),
        final(session).attempts() == old(session).attempts(),
        if old(session).attempts() > max_attempts {
            e == Event::NotApproveNotAttempts && final(session).handshakes() == old(session).handshakes()
        } else if handshake_quorum(old(session).handshakes().len(), total_hubs as nat, old(session).attempts()) {
            e == Event::ApproveQuorum && final(session).handshakes() == old(session).handshakes()
        } else {
            e == Event::NotApproveQuorum && final(session).handshakes() == Map::<Seq<char>, u32>::empty()
        },
{
    let a = session.get_total_attempts();
    if a > max_attempts {
        return Event::NotApproveNotAttempts;
    }
    let h = session.get_total_handshake();
    let approve = if a >= 15 {
        false
    } else {
        let t: u64 = 85 - 5 * a;
        assert(t == handshake_threshold(a as nat));
        if total_hubs == 0 {
            h > 0
        } else {
            assert((t as u128) * (total_hubs as u128) <= 85 * 0xffff_ffff_ffff_ffffu128) by (nonlinear_arith)
                requires
                    t <= 85,
            ;
            (h as u128) * 100 >= (t as u128) * (total_hubs as u128)
        }
    };
    if approve {
        Event::ApproveQuorum
    } else {
        session.reset_handshake_hash();
        Event::NotApproveQuorum
    }
}

/// Records an empty-queue report and tells whether at least `percent` percent
/// of the hubs have now reported one.
fn record_empty(session: &mut UpdateSession, sender: &String, total_hubs: u64, percent: u64) -> (approved: bool)
    requires
        old(session).wf(),
        percent <= 100,
    ensures
        final(session).wf(),
        final(session).empties() == keep_first(old(session).empties(), sender@, true),
        final(session).handshakes() == old(session).handshakes(),
        final(session).session_state() == old(session).session_state(),
        final(session).attempts() == old(session).attempts(),
        approved == empty_quorum(final(session).empties().len(), total_hubs as nat, percent as nat),
{
    session.insert_empty(sender.clone(), true);
    let e = session.get_total_empty();
    assert((percent as u128) * (total_hubs as u128) <= 100 * 0xffff_ffff_ffff_ffffu128) by (nonlinear_arith)
        requires
            percent <= 100,
    ;
    (e as u128) * 100 >= (percent as u128) * (total_hubs as u128)
}

/// Handles a report of an empty queue during a phase: once at least 80% of
/// the hubs reported one, the phase may end.
pub fn quorum_phase(session: &mut UpdateSession, msg: &HubMessage, total_hubs: u64) -> (approved: bool)
    requires
        old(session).wf(),
    ensures
        final(session).wf(),
        final(session).handshakes() == old(session).handshakes(),
        final(session).session_state() == old(session).session_state(),
        final(session).attempts() == old(session).attempts(),
        match msg {
            HubMessage::EmptyQueue(q) => if q.queue_empty {
                &&& final(session).empties() == keep_first(
                    old(session).empties(),
                    q.metadata.sender_user_id@,
                    true,
                )
                &&& approved == empty_quorum(final(session).empties().len(), total_hubs as nat, 80)
            } else {
                final(session).empties() == old(session).empties() && !approved
            },
            _ => final(session).empties() == old(session).empties() && !approved,
        },
{
    match msg {
        HubMessage::EmptyQueue(q) => {
            if q.queue_empty {
                record_empty(session, &q.metadata.sender_user_id, total_hubs, PHASE_QUORUM)
            } else {
                false
            }
        },
        _ => false,
    }
}

/// Handles a report of an empty queue in safe mode: once at least 70% of the
/// hubs reported one, safe mode may end.
pub fn quorum_safe_mode(session: &mut UpdateSession, msg: &HubMessage, total_hubs: u64) -> (approved: bool)
    requires
        old(session).wf(),
    ensures
        final(session).wf(),
        final(session).handshakes() == old(session).handshakes(),
        final(session).session_state() == old(session).session_state(),
        final(session).attempts() == old(session).attempts(),
        match msg {
            HubMessage::EmptyQueueSafe(q) => if q.queue_empty {
                &&& final(session).empties() == keep_first(
                    old(session).empties(),
                    q.metadata.sender_user_id@,
                    true,
                )
                &&& approved == empty_quorum(final(session).empties().len(), total_hubs as nat, 70)
            } else {
                final(session).empties() == old(session).empties() && !approved
            },
            _ => final(session).empties() == old(session).empties() && !approved,
        },
{
    match msg {
        HubMessage::EmptyQueueSafe(q) => {
            if q.queue_empty {
                record_empty(session, &q.metadata.sender_user_id, total_hubs, SAFE_MODE_QUORUM)
            } else {
                false
            }
        },
        _ => false,
    }
}

/// Whether an output sends the balance-mode notice with the given sub-state.
pub open spec fn is_balance_state(o: FsmOutput, id: Seq<char>, epoch: u32, sub: Seq<char>) -> bool {
    o matches FsmOutput::ToCore(FsmServiceResponse::ToHub(HubMessage::StateBalanceMode(m))) && broadcast_meta(
        m.metadata,
        id,
    ) && m.state@ == "balance_mode"@ && m.balance_epoch == epoch && m.sub_state@ == sub && m.duration == 5
}

/// Whether an output sends a handshake with the given flag.
pub open spec fn is_handshake(o: FsmOutput, id: Seq<char>, epoch: u32, flag: Seq<char>) -> bool {
    o matches FsmOutput::ToCore(FsmServiceResponse::ToHub(HubMessage::HandshakeToHub(m))) && broadcast_meta(
        m.metadata,
        id,
    ) && m.flag@ == flag && m.balance_epoch == epoch && m.duration == HANDSHAKE_WINDOW
}

/// Whether an output sends the phase notification.
pub open spec fn is_phase_notification(o: FsmOutput, id: Seq<char>, epoch: u32) -> bool {
    o matches FsmOutput::ToCore(FsmServiceResponse::ToHub(HubMessage::PhaseNotification(m))) && broadcast_meta(
        m.metadata,
        id,
    ) && m.state@ == "a"@ && m.epoch == epoch && m.phase@ == "a"@ && m.frequency == 1 && m.jitter == 2
}

/// Whether an output sends the normal-mode notice.
pub open spec fn is_state_normal(o: FsmOutput, id: Seq<char>) -> bool {
    o matches FsmOutput::ToCore(FsmServiceResponse::ToHub(HubMessage::StateNormal(m))) && broadcast_meta(
        m.metadata,
        id,
    ) && m.state@ == "normal"@
}

/// Whether an output sends the safe-mode notice (its jitter is drawn in `0..=5`).
pub open spec fn is_state_safe_mode(o: FsmOutput, id: Seq<char>) -> bool {
    o matches FsmOutput::ToCore(FsmServiceResponse::ToHub(HubMessage::StateSafeMode(m))) && broadcast_meta(
        m.metadata,
        id,
    ) && m.state@ == "safe_mode"@ && m.duration == SAFE_MODE_MAX_DURATION && m.frequency == 4 && m.jitter <= 5
}

/// The output that arms the watchdog for `secs` seconds.
pub open spec fn timer(secs: u64) -> FsmOutput {
    FsmOutput::ToTimer(Event::InitTimer((secs * 1000) as u64))
}

/// The session state that entering a phase sets.
pub open spec fn phase_session(p: SubStatePhase) -> StateOfSession {
    match p {
        SubStatePhase::Alert => StateOfSession::PhaseAlert,
        SubStatePhase::Data => StateOfSession::PhaseData,
        SubStatePhase::Monitor => StateOfSession::PhaseMonitor,
    }
}

/// Whether two sessions agree on everything but their state.
pub open spec fn same_but_state(a: UpdateSession, b: UpdateSession) -> bool {
    a.empties() == b.empties() && a.handshakes() == b.handshakes() && a.attempts() == b.attempts()
}

/// Whether two sessions are equal in every part.
pub open spec fn same_session(a: UpdateSession, b: UpdateSession) -> bool {
    same_but_state(a, b) && a.session_state() == b.session_state()
}

fn balance_state_output(meta: Metadata, epoch: u32, sub: &str) -> (o: FsmOutput)
    ensures
        o matches FsmOutput::ToCore(FsmServiceResponse::ToHub(HubMessage::StateBalanceMode(m))) && same_meta(m.metadata, meta)
            && m.state@ == "balance_mode"@ && m.balance_epoch == epoch && m.sub_state@ == sub@ && m.duration == 5,
{
    FsmOutput::ToCore(
        FsmServiceResponse::ToHub(
            HubMessage::StateBalanceMode(
                MessageStateBalanceMode {
                    metadata: meta,
                    state: String::from_str("balance_mode"),
                    balance_epoch: epoch,
                    sub_state: String::from_str(sub),
                    duration: 5,
                },
            ),
        ),
    )
}

fn handshake_output(meta: Metadata, epoch: u32, flag: &str) -> (o: FsmOutput)
    ensures
        o matches FsmOutput::ToCore(FsmServiceResponse::ToHub(HubMessage::HandshakeToHub(m))) && same_meta(m.metadata, meta)
            && m.flag@ == flag@ && m.balance_epoch == epoch && m.duration == HANDSHAKE_WINDOW,
{
    FsmOutput::ToCore(
        FsmServiceResponse::ToHub(
            HubMessage::HandshakeToHub(
                HandshakeToHub {
                    metadata: meta,
                    flag: String::from_str(flag),
                    balance_epoch: epoch,
                    duration: 180,
                },
            ),
        ),
    )
}

fn phase_notification_output(meta: Metadata, epoch: u32) -> (o: FsmOutput)
    ensures
        o matches FsmOutput::ToCore(FsmServiceResponse::ToHub(HubMessage::PhaseNotification(m))) && same_meta(m.metadata, meta)
            && m.state@ == "a"@ && m.epoch == epoch && m.phase@ == "a"@ && m.frequency == 1 && m.jitter == 2,
{
    FsmOutput::ToCore(
        FsmServiceResponse::ToHub(
            HubMessage::PhaseNotification(
                PhaseNotification {
                    metadata: meta,
                    state: String::from_str("a"),
                    epoch,
                    phase: String::from_str("a"),
                    frequency: 1,
                    jitter: 2,
                },
            ),
        ),
    )
}

fn timer_output(secs: u64) -> (o: FsmOutput)
    requires
        secs <= 1000,
    ensures
        o == timer(secs),
{
    FsmOutput::ToTimer(Event::InitTimer(secs * 1000))
}

/// What carrying out `action` sends, in order, and how it changes the
/// session; `epoch` is the current balance epoch and `total_hubs` is read from
/// the registry when a quorum is decided.
pub fn handle_action(
    action: Action,
    ctx: &FsmContext,
    epoch: u32,
    session: &mut UpdateSession,
    manager: &NetworkManager,
    max_attempts: u64,
) -> (out: Vec<FsmOutput>)
    requires
        old(session).wf(),
        manager.wf(),
        manager.hub_total() <= u64::MAX,
    ensures
        final(session).wf(),
        ({
            let id = ctx.id_edge@;
            let s0 = *old(session);
            let s1 = *final(session);
            match action {
                Action::OnEntryBalance(SubStateBalanceMode::InitBalanceMode) => out@ == seq![
                    FsmOutput::ToCore(FsmServiceResponse::GetEpoch),
                ] && same_session(s0, s1),
                Action::OnEntryBalance(SubStateBalanceMode::InHandshake) => {
                    &&& out@.len() == 3
                    &&& is_balance_state(out@[0], id, epoch, "in_handshake"@)
                    &&& is_handshake(out@[1], id, epoch, "in"@)
                    &&& out@[2] == timer(HANDSHAKE_WINDOW)
                    &&& same_but_state(s0, s1) && s1.session_state() == StateOfSession::InHandshake
                },
                Action::OnEntryBalance(SubStateBalanceMode::OutHandshake) => {
                    &&& out@.len() == 3
                    &&& is_balance_state(out@[0], id, epoch, "out_handshake"@)
                    &&& is_handshake(out@[1], id, epoch, "out"@)
                    &&& out@[2] == timer(HANDSHAKE_WINDOW)
                    &&& same_but_state(s0, s1) && s1.session_state() == StateOfSession::OutHandshake
                },
                Action::OnEntryQuorum(SubStateQuorum::CheckQuorumIn) | Action::OnEntryQuorum(
                    SubStateQuorum::CheckQuorumOut,
                ) => {
                    &&& s1.session_state() == StateOfSession::Quorum
                    &&& s1.empties() == s0.empties() && s1.attempts() == s0.attempts()
                    &&& out@.len() == 1
                    &&& if s0.attempts() > max_attempts {
                        out@[0] == FsmOutput::ToFsm(Event::NotApproveNotAttempts) && s1.handshakes()
                            == s0.handshakes()
                    } else if handshake_quorum(s0.handshakes().len(), manager.hub_total(), s0.attempts()) {
                        out@[0] == FsmOutput::ToFsm(Event::ApproveQuorum) && s1.handshakes() == s0.handshakes()
                    } else {
                        out@[0] == FsmOutput::ToFsm(Event::NotApproveQuorum) && s1.handshakes() == Map::<
                            Seq<char>,
                            u32,
                        >::empty()
                    }
                },
                Action::OnEntryQuorum(q) => {
                    &&& out@.len() == 2
                    &&& is_handshake(
                        out@[0],
                        id,
                        epoch,
                        if q == SubStateQuorum::RepeatHandshakeIn {
                            "in"@
                        } else {
                            "out"@
                        },
                    )
                    &&& out@[1] == timer(HANDSHAKE_WINDOW)
                    &&& s1.session_state() == StateOfSession::RepeatHandshake
                    &&& s1.empties() == s0.empties() && s1.handshakes() == s0.handshakes()
                    &&& s1.attempts() == if s0.attempts() < u64::MAX {
                        s0.attempts() + 1
                    } else {
                        s0.attempts()
                    }
                },
                Action::OnEntryPhase(p) => {
                    &&& out@.len() == if p == SubStatePhase::Alert {
                        4int
                    } else {
                        3int
                    }
                    &&& out@[0] == timer(PHASE_MAX_DURATION)
                    &&& is_balance_state(out@[1], id, epoch, "phase"@)
                    &&& is_phase_notification(out@[2], id, epoch)
                    &&& p == SubStatePhase::Alert ==> out@[3] == FsmOutput::ToHeartbeat(
                        Action::SendHeartbeatMessagePhase,
                    )
                    &&& s1.session_state() == phase_session(p)
                    &&& s1.attempts() == 0
                    &&& s1.handshakes() == Map::<Seq<char>, u32>::empty()
                    &&& s1.empties() == Map::<Seq<char>, bool>::empty()
                },
                Action::OnEntryNormal => {
                    &&& out@.len() == 2
                    &&& is_state_normal(out@[0], id)
                    &&& out@[1] == FsmOutput::ToHeartbeat(Action::SendHeartbeatMessageNormal)
                    &&& same_session(s0, s1)
                },
                Action::OnEntrySafeMode => {
                    &&& out@.len() == 4
                    &&& out@[0] == timer(SAFE_MODE_MAX_DURATION)
                    &&& is_state_safe_mode(out@[1], id)
                    &&& is_phase_notification(out@[2], id, epoch)
                    &&& out@[3] == FsmOutput::ToHeartbeat(Action::SendHeartbeatMessageSafeMode)
                    &&& s1.session_state() == StateOfSession::SafeMode
                    &&& s1.empties() == Map::<Seq<char>, bool>::empty()
                    &&& s1.handshakes() == s0.handshakes() && s1.attempts() == s0.attempts()
                },
                Action::StopTimer => out@ == seq![FsmOutput::ToTimer(Event::StopTimer)] && same_session(s0, s1),
                Action::StopSendHeartbeatMessagePhase => out@ == seq![
                    FsmOutput::ToHeartbeat(Action::StopSendHeartbeatMessagePhase),
                ] && same_session(s0, s1),
                Action::StopSendHeartbeatMessageSafeMode => out@ == seq![
                    FsmOutput::ToHeartbeat(Action::StopSendHeartbeatMessageSafeMode),
                ] && same_session(s0, s1),
                _ => out@.len() == 0 && same_session(s0, s1),
            }
        }),
{
    let mut out: Vec<FsmOutput> = Vec::new();
    match action {
        Action::OnEntryBalance(sub_bm) => {
            match sub_bm {
                SubStateBalanceMode::InitBalanceMode => {
                    out.push(FsmOutput::ToCore(FsmServiceResponse::GetEpoch));
                },
                SubStateBalanceMode::InHandshake => {
                    session.set_state(StateOfSession::InHandshake);
                    let metadata = build_metadata(ctx, "all");
                    out.push(balance_state_output(metadata.duplicate(), epoch, "in_handshake"));
                    out.push(handshake_output(metadata, epoch, "in"));
                    out.push(timer_output(HANDSHAKE_WINDOW));
                },
                SubStateBalanceMode::OutHandshake => {
                    session.set_state(StateOfSession::OutHandshake);
                    let metadata = build_metadata(ctx, "all");
                    out.push(balance_state_output(metadata.duplicate(), epoch, "out_handshake"));
                    out.push(handshake_output(metadata, epoch, "out"));
                    out.push(timer_output(HANDSHAKE_WINDOW));
                },
                _ => {},
            }
        },
        Action::OnEntryQuorum(sub_q) => {
            match sub_q {
                SubStateQuorum::CheckQuorumIn | SubStateQuorum::CheckQuorumOut => {
                    session.set_state(StateOfSession::Quorum);
                    let total_hubs = manager.get_total_hubs();
                    let e = quorum_algorithm(session, max_attempts, total_hubs);
                    out.push(FsmOutput::ToFsm(e));
                },
                SubStateQuorum::RepeatHandshakeIn | SubStateQuorum::RepeatHandshakeOut => {
                    session.set_state(StateOfSession::RepeatHandshake);
                    session.increment_attempts();
                    let metadata = build_metadata(ctx, "all");
                    let flag = match sub_q {
                        SubStateQuorum::RepeatHandshakeIn => "in",
                        _ => "out",
                    };
                    proof {
                        reveal_strlit("in");
                        reveal_strlit("out");
                    }
                    out.push(handshake_output(metadata, epoch, flag));
                    out.push(timer_output(HANDSHAKE_WINDOW));
                },
            }
        },
        Action::OnEntryPhase(sub_p) => {
            session.reset_total_attempts();
            session.reset_handshake_hash();
            session.reset_empty_hash();
            let state = match sub_p {
                SubStatePhase::Alert => StateOfSession::PhaseAlert,
                SubStatePhase::Data => StateOfSession::PhaseData,
                SubStatePhase::Monitor => StateOfSession::PhaseMonitor,
            };
            session.set_state(state);
            out.push(timer_output(PHASE_MAX_DURATION));
            let metadata = build_metadata(ctx, "all");
            out.push(balance_state_output(metadata.duplicate(), epoch, "phase"));
            out.push(phase_notification_output(metadata, epoch));
            match sub_p {
                SubStatePhase::Alert => {
                    out.push(FsmOutput::ToHeartbeat(Action::SendHeartbeatMessagePhase));
                },
                _ => {},
            }
        },
        Action::OnEntryNormal => {
            let metadata = build_metadata(ctx, "all");
            out.push(
                FsmOutput::ToCore(
                    FsmServiceResponse::ToHub(
                        HubMessage::StateNormal(
                            MessageStateNormal { metadata, state: String::from_str("normal") },
                        ),
                    ),
                ),
            );
            out.push(FsmOutput::ToHeartbeat(Action::SendHeartbeatMessageNormal));
        },
        Action::OnEntrySafeMode => {
            session.reset_empty_hash();
            session.set_state(StateOfSession::SafeMode);
            out.push(timer_output(SAFE_MODE_MAX_DURATION));
            let metadata = build_metadata(ctx, "all");
            let jitter = random_u32_in(0, 5);
            out.push(
                FsmOutput::ToCore(
                    FsmServiceResponse::ToHub(
                        HubMessage::StateSafeMode(
                            MessageStateSafeMode {
                                metadata: metadata.duplicate(),
                                state: String::from_str("safe_mode"),
                                duration: 900,
                                frequency: 4,
                                jitter,
                            },
                        ),
                    ),
                ),
            );
            out.push(phase_notification_output(metadata, epoch));
            out.push(FsmOutput::ToHeartbeat(Action::SendHeartbeatMessageSafeMode));
        },
        Action::StopTimer => {
            out.push(FsmOutput::ToTimer(Event::StopTimer));
        },
        Action::StopSendHeartbeatMessagePhase => {
            out.push(FsmOutput::ToHeartbeat(Action::StopSendHeartbeatMessagePhase));
        },
        Action::StopSendHeartbeatMessageSafeMode => {
            out.push(FsmOutput::ToHeartbeat(Action::StopSendHeartbeatMessageSafeMode));
        },
        _ => {},
    }
    out
}

/// Whether the session is collecting handshake answers.
pub open spec fn collects_handshakes(s: StateOfSession) -> bool {
    s == StateOfSession::InHandshake || s == StateOfSession::OutHandshake || s == StateOfSession::RepeatHandshake
}

/// Whether the session is in a phase.
pub open spec fn in_phase(s: StateOfSession) -> bool {
    s == StateOfSession::PhaseAlert || s == StateOfSession::PhaseData || s == StateOfSession::PhaseMonitor
}

/// The outputs once an empty-queue quorum is reached.
pub open spec fn quorum_outputs(approved: bool, e: Event) -> Seq<FsmOutput> {
    if approved {
        seq![FsmOutput::ToFsm(e), FsmOutput::ToTimer(Event::StopTimer)]
    } else {
        seq![]
    }
}

/// What a command from the core changes and sends: handshake answers of the
/// current epoch are recorded while handshakes are collected, empty-queue
/// reports count towards the quorum of the phase or of safe mode, pings are
/// answered, and the epoch read from storage becomes the next epoch.
pub fn on_command(
    cmd: FsmServiceCommand,
    ctx: &FsmContext,
    epoch: &mut u32,
    session: &mut UpdateSession,
    manager: &NetworkManager,
) -> (out: Vec<FsmOutput>)
    requires
        old(session).wf(),
        manager.wf(),
        manager.hub_total() <= u64::MAX,
        cmd matches FsmServiceCommand::Epoch(e) ==> e < u32::MAX,
    ensures
        final(session).wf(),
        final(session).session_state() == old(session).session_state(),
        final(session).attempts() == old(session).attempts(),
        ({
            let s0 = *old(session);
            let s1 = *final(session);
            match cmd {
                FsmServiceCommand::FromHub(HubMessage::HandshakeFromHub(h)) => {
                    &&& out@.len() == 0
                    &&& *final(epoch) == *old(epoch)
                    &&& s1.empties() == s0.empties()
                    &&& s1.handshakes() == if collects_handshakes(s0.session_state()) && h.balance_epoch
                        == *old(epoch) {
                        keep_first(s0.handshakes(), h.metadata.sender_user_id@, h.balance_epoch)
                    } else {
                        s0.handshakes()
                    }
                },
                FsmServiceCommand::FromHub(HubMessage::EmptyQueue(q)) => {
                    &&& *final(epoch) == *old(epoch)
                    &&& s1.handshakes() == s0.handshakes()
                    &&& if in_phase(s0.session_state()) && q.queue_empty {
                        &&& s1.empties() == keep_first(s0.empties(), q.metadata.sender_user_id@, true)
                        &&& out@ == quorum_outputs(
                            empty_quorum(s1.empties().len(), manager.hub_total(), 80),
                            Event::QuorumPhase,
                        )
                    } else {
                        s1.empties() == s0.empties() && out@.len() == 0
                    }
                },
                FsmServiceCommand::FromHub(HubMessage::EmptyQueueSafe(q)) => {
                    &&& *final(epoch) == *old(epoch)
                    &&& s1.handshakes() == s0.handshakes()
                    &&& if s0.session_state() == StateOfSession::SafeMode && q.queue_empty {
                        &&& s1.empties() == keep_first(s0.empties(), q.metadata.sender_user_id@, true)
                        &&& out@ == quorum_outputs(
                            empty_quorum(s1.empties().len(), manager.hub_total(), 70),
                            Event::QuorumSafeMode,
                        )
                    } else {
                        s1.empties() == s0.empties() && out@.len() == 0
                    }
                },
                FsmServiceCommand::FromHub(HubMessage::Ping(p)) => {
                    &&& *final(epoch) == *old(epoch)
                    &&& same_session(s0, s1)
                    &&& if p.ping {
                        &&& out@.len() == 1
                        &&& out@[0] matches FsmOutput::ToCore(FsmServiceResponse::ToHub(HubMessage::Ping(a)))
                        &&& a.metadata.sender_user_id@ == ctx.id_edge@
                        &&& a.metadata.destination_id@ == p.metadata.sender_user_id@
                        &&& a.network@ == p.network@
                        &&& a.ping
                    } else {
                        out@.len() == 0
                    }
                },
                FsmServiceCommand::ErrorEpoch => {
                    &&& out@ == seq![FsmOutput::ToFsm(Event::BalanceEpochNotOk)]
                    &&& *final(epoch) == *old(epoch)
                    &&& same_session(s0, s1)
                },
                FsmServiceCommand::Epoch(e) => {
                    &&& *final(epoch) == e + 1
                    &&& out@ == seq![
                        FsmOutput::ToFsm(Event::BalanceEpochOk),
                        FsmOutput::ToCore(FsmServiceResponse::NewEpoch((e + 1) as u32)),
                    ]
                    &&& same_session(s0, s1)
                },
                _ => out@.len() == 0 && *final(epoch) == *old(epoch) && same_session(s0, s1),
            }
        }),
{
    let mut out: Vec<FsmOutput> = Vec::new();
    match cmd {
        FsmServiceCommand::FromHub(hub_msg) => {
            match hub_msg {
                HubMessage::HandshakeFromHub(handshake) => {
                    let collecting = match session.get_state() {
                        StateOfSession::InHandshake | StateOfSession::OutHandshake
                        | StateOfSession::RepeatHandshake => true,
                        _ => false,
                    };
                    if collecting && handshake.balance_epoch == *epoch {
                        session.insert_handshake(handshake.metadata.sender_user_id, handshake.balance_epoch);
                    }
                },
                HubMessage::EmptyQueue(q) => {
                    let phase = match session.get_state() {
                        StateOfSession::PhaseAlert | StateOfSession::PhaseData
                        | StateOfSession::PhaseMonitor => true,
                        _ => false,
                    };
                    if phase {
                        let total_hubs = manager.get_total_hubs();
                        let approved = quorum_phase(session, &HubMessage::EmptyQueue(q), total_hubs);
                        if approved {
                            out.push(FsmOutput::ToFsm(Event::QuorumPhase));
                            out.push(FsmOutput::ToTimer(Event::StopTimer));
                        }
                    }
                },
                HubMessage::EmptyQueueSafe(q) => {
                    let safe = match session.get_state() {
                        StateOfSession::SafeMode => true,
                        _ => false,
                    };
                    if safe {
                        let total_hubs = manager.get_total_hubs();
                        let approved = quorum_safe_mode(session, &HubMessage::EmptyQueueSafe(q), total_hubs);
                        if approved {
                            out.push(FsmOutput::ToFsm(Event::QuorumSafeMode));
                            out.push(FsmOutput::ToTimer(Event::StopTimer));
                        }
                    }
                },
                HubMessage::Ping(p) => {
                    if p.ping {
                        let metadata = build_metadata(ctx, p.metadata.sender_user_id.as_str());
                        out.push(
                            FsmOutput::ToCore(
                                FsmServiceResponse::ToHub(
                                    HubMessage::Ping(Ping { metadata, network: p.network, ping: true }),
                                ),
                            ),
                        );
                    }
                },
                _ => {},
            }
        },
        FsmServiceCommand::ErrorEpoch => {
            out.push(FsmOutput::ToFsm(Event::BalanceEpochNotOk));
        },
        FsmServiceCommand::Epoch(e) => {
            *epoch = e + 1;
            out.push(FsmOutput::ToFsm(Event::BalanceEpochOk));
            out.push(FsmOutput::ToCore(FsmServiceResponse::NewEpoch(e + 1)));
        },
        _ => {},
    }
    out
}

} // verus!
