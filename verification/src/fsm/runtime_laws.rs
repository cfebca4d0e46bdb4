//! Properties of the quorum rules and of the small machines around the
//! balancing machine.

use vstd::prelude::*;
use crate::firmware::domain::FirmwareServiceCommand;
use crate::fsm::domain::{Action, FsmServiceCommand};
use crate::fsm::logic::{empty_quorum, handshake_quorum, keep_first};
use crate::fsm::runtime::{
    arm_for, firmware_service_rule, heartbeat_period, service_rule, watchdog_rule, HeartbeatState, ServiceStep,
    TimerCommand, WatchdogInput, WatchdogState, WatchdogStep,
};
use crate::quorum::domain::ProtocolSettings;

verus! {

/// More handshake answers never turn an approved quorum into a refused one.
pub proof fn law_handshake_quorum_monotone(h1: nat, h2: nat, total_hubs: nat, attempts: nat)
    requires
        h1 <= h2,
        handshake_quorum(h1, total_hubs, attempts),
    ensures
        handshake_quorum(h2, total_hubs, attempts),
{
    if total_hubs != 0 {
        assert(100 * h1 <= 100 * h2);
    }
}

/// After fifteen repeated rounds the threshold is ten points or less, so no
/// number of answers approves the quorum.
pub proof fn law_handshake_quorum_gives_up(h: nat, total_hubs: nat, attempts: nat)
    requires
        attempts >= 15,
    ensures
        !handshake_quorum(h, total_hubs, attempts),
{
}

/// More empty-queue reports never turn a reached quorum into a missed one.
pub proof fn law_empty_quorum_monotone(e1: nat, e2: nat, total_hubs: nat, percent: nat)
    requires
        e1 <= e2,
        empty_quorum(e1, total_hubs, percent),
    ensures
        empty_quorum(e2, total_hubs, percent),
{
}

/// A hub that reports twice counts once: recording the same report again
/// changes nothing.
pub proof fn law_report_counts_once<V>(m: Map<Seq<char>, V>, k: Seq<char>, v: V, w: V)
    ensures
        keep_first(keep_first(m, k, v), k, w) == keep_first(m, k, v),
        keep_first(m, k, v).dom() == m.dom().insert(k),
{
    assert(keep_first(m, k, v).dom() =~= m.dom().insert(k));
}

/// A watchdog sends `Timeout` only when its armed period ends.
pub proof fn law_timeout_only_when_armed(s: WatchdogState, i: WatchdogInput)
    ensures
        (watchdog_rule(s, i) matches WatchdogStep::Continue { timeout, .. } && timeout) ==> (s is Armed && i
            == WatchdogInput::Elapsed),
{
}

/// A listening watchdog that receives `StopTimer` is idle afterwards and
/// sends nothing; an idle watchdog stays idle until it is armed.
pub proof fn law_stop_disarms(millis: u64, i: WatchdogInput)
    ensures
        watchdog_rule(WatchdogState::Armed { millis, listening: true }, WatchdogInput::Command(Some(TimerCommand::Stop)))
            == (WatchdogStep::Continue { next: WatchdogState::Idle, timeout: false }),
        !(i matches WatchdogInput::Command(Some(TimerCommand::Init(_)))) && i != WatchdogInput::Command(None)
            ==> watchdog_rule(WatchdogState::Idle, i) == (WatchdogStep::Continue {
            next: WatchdogState::Idle,
            timeout: false,
        }),
{
}

/// Arming a watchdog and letting the period end gives exactly one `Timeout`
/// and leaves it idle.
pub proof fn law_arm_then_elapse(millis: u64)
    ensures
        ({
            let first = watchdog_rule(WatchdogState::Idle, WatchdogInput::Command(Some(TimerCommand::Init(millis))));
            &&& first == (WatchdogStep::Continue {
                next: WatchdogState::Armed { millis, listening: true },
                timeout: false,
            })
            &&& watchdog_rule(WatchdogState::Armed { millis, listening: true }, WatchdogInput::Elapsed) == (
            WatchdogStep::Continue { next: WatchdogState::Idle, timeout: true })
        }),
{
}

/// Commands reach a runtime only while it runs, a runtime is started only
/// when none runs, and only a running one is torn down.
pub proof fn law_runtime_lifecycle(running: bool, cmd: FsmServiceCommand, fcmd: FirmwareServiceCommand)
    ensures
        service_rule(running, cmd) == ServiceStep::Forward ==> running,
        service_rule(running, cmd) == ServiceStep::Spawn ==> !running,
        service_rule(running, cmd) == ServiceStep::Teardown ==> running,
        firmware_service_rule(running, fcmd) == ServiceStep::Forward ==> running,
        firmware_service_rule(running, fcmd) == ServiceStep::Spawn ==> !running,
        firmware_service_rule(running, fcmd) == ServiceStep::Teardown ==> running,
{
}

/// The mode that a start action selects.
pub open spec fn selected_mode(a: Action) -> Option<HeartbeatState> {
    match a {
        Action::SendHeartbeatMessagePhase => Some(HeartbeatState::BalanceMode),
        Action::SendHeartbeatMessageNormal => Some(HeartbeatState::Normal),
        Action::SendHeartbeatMessageSafeMode => Some(HeartbeatState::SafeMode),
        _ => None,
    }
}

/// The timer that a start action arms.
pub open spec fn start_timer(a: Action, p: ProtocolSettings) -> Option<u64> {
    match a {
        Action::SendHeartbeatMessagePhase => Some(p.balance_mode_spec()),
        Action::SendHeartbeatMessageNormal => Some(p.normal_spec()),
        Action::SendHeartbeatMessageSafeMode => Some(p.safe_mode_spec()),
        _ => None,
    }
}

/// Once a mode is selected, every heartbeat re-arms the timer with the same
/// period that the start action armed it with.
pub proof fn law_heartbeat_keeps_period(a: Action, p: ProtocolSettings)
    requires
        selected_mode(a) is Some,
    ensures
        heartbeat_period(selected_mode(a)->0, p) == start_timer(a, p),
        arm_for(start_timer(a, p)->0) == arm_for(heartbeat_period(selected_mode(a)->0, p)->0),
{
}

} // verus!
