//! The small state machines around the balancing machine: applying its
//! transitions, the watchdog timers, the heartbeat generator and the service
//! that owns the runtime. Each is a step function; the caller waits for the
//! next input and carries out what the step returns.

use vstd::prelude::*;
use crate::fsm::domain::{
    step_result, Action, Event, FsmServiceCommand, FsmServiceResponse, FsmState, Transition,
};
use crate::firmware::domain::FirmwareServiceCommand;
use crate::fsm::logic::{build_metadata, broadcast_meta, FsmContext};
use crate::message::domain::{Heartbeat, HubMessage, ServerMessage};
use crate::quorum::domain::ProtocolSettings;

verus! {

/// Applies one event to the machine: on an accepted transition the state
/// moves and its actions are returned; on a refused one the state stays and
/// the reason is returned.
pub fn handle_transition(state: &mut FsmState, event: Event) -> (r: Result<Vec<Action>, String>)
    ensures
        match step_result(*old(state), event) {
            Ok((next, actions)) => *final(state) == next && (r matches Ok(v) && v@ == actions),
            Err(reason) => *final(state) == *old(state) && (r matches Err(m) && m@ == reason),
        },
{
    match state.step(event) {
        Transition::Valid(t) => {
            *state = t.get_change_state();
            Ok(t.get_actions())
        },
        Transition::Invalid(t) => Err(String::from_str(t.get_invalid())),
    }
}

/// `secs` seconds in milliseconds, saturating at `u64::MAX`.
pub fn secs_to_millis(secs: u64) -> (ms: u64)
    ensures
        ms == if secs * 1000 <= u64::MAX {
            (secs * 1000) as u64
        } else {
            u64::MAX
        },
{
    match secs.checked_mul(1000) {
        Some(ms) => ms,
        None => u64::MAX,
    }
}

/// A watchdog timer: idle, or armed for a number of milliseconds. While armed
/// it listens for `StopTimer` until a command of another kind arrives.
#[derive(Debug, Clone, Copy, PartialEq, Eq, Structural)]
pub enum WatchdogState {
    Idle,
    Armed { millis: u64, listening: bool },
}

/// A command received by a watchdog: arm for a number of milliseconds, stop,
/// or a command that watchdogs do not take.
#[derive(Debug, Clone, Copy, PartialEq, Eq, Structural)]
pub enum TimerCommand {
    Init(u64),
    Stop,
    Other,
}

/// The watchdog command that an event of the balancing machine carries.
pub fn timer_command(e: Event) -> (c: TimerCommand)
    ensures
        c == match e {
            Event::InitTimer(ms) => TimerCommand::Init(ms),
            Event::StopTimer => TimerCommand::Stop,
            _ => TimerCommand::Other,
        },
{
    match e {
        Event::InitTimer(ms) => TimerCommand::Init(ms),
        Event::StopTimer => TimerCommand::Stop,
        _ => TimerCommand::Other,
    }
}

/// What the watchdog waits for: a command (`None` when the channel closed),
/// the end of the armed period, or the shutdown signal.
#[derive(Debug, Clone, Copy, PartialEq, Eq, Structural)]
pub enum WatchdogInput {
    Command(Option<TimerCommand>),
    Elapsed,
    Cancelled,
}

/// What the watchdog does next: go on in a state, sending `Timeout` when
/// asked, or end.
#[derive(Debug, Clone, Copy, PartialEq, Eq, Structural)]
pub enum WatchdogStep {
    Continue { next: WatchdogState, timeout: bool },
    Stop,
}

/// The watchdog's rule. Idle, it arms on `InitTimer`, ignores other commands
/// and ends when the channel closes. Armed, it ends on shutdown, sends
/// `Timeout` when the period ends, disarms on `StopTimer`, and stops listening
/// after any other command until the period ends.
pub open spec fn watchdog_rule(s: WatchdogState, i: WatchdogInput) -> WatchdogStep {
    match s {
        WatchdogState::Idle => match i {
            WatchdogInput::Command(Some(TimerCommand::Init(ms))) => WatchdogStep::Continue {
                next: WatchdogState::Armed { millis: ms, listening: true },
                timeout: false,
            },
            WatchdogInput::Command(None) => WatchdogStep::Stop,
            _ => WatchdogStep::Continue { next: WatchdogState::Idle, timeout: false },
        },
        WatchdogState::Armed { millis, listening } => match i {
            WatchdogInput::Cancelled => WatchdogStep::Stop,
            WatchdogInput::Elapsed => WatchdogStep::Continue { next: WatchdogState::Idle, timeout: true },
            WatchdogInput::Command(Some(TimerCommand::Stop)) => if listening {
                WatchdogStep::Continue { next: WatchdogState::Idle, timeout: false }
            } else {
                WatchdogStep::Continue { next: s, timeout: false }
            },
            WatchdogInput::Command(_) => WatchdogStep::Continue {
                next: WatchdogState::Armed { millis, listening: false },
                timeout: false,
            },
        },
    }
}

/// One step of a watchdog timer.
pub fn watchdog_step(s: WatchdogState, i: WatchdogInput) -> (r: WatchdogStep)
    ensures
        r == watchdog_rule(s, i),
{
    match s {
        WatchdogState::Idle => match i {
            WatchdogInput::Command(Some(TimerCommand::Init(ms))) => WatchdogStep::Continue {
                next: WatchdogState::Armed { millis: ms, listening: true },
                timeout: false,
            },
            WatchdogInput::Command(None) => WatchdogStep::Stop,
            _ => WatchdogStep::Continue { next: WatchdogState::Idle, timeout: false },
        },
        WatchdogState::Armed { millis, listening } => match i {
            WatchdogInput::Cancelled => WatchdogStep::Stop,
            WatchdogInput::Elapsed => WatchdogStep::Continue { next: WatchdogState::Idle, timeout: true },
            WatchdogInput::Command(Some(TimerCommand::Stop)) => {
                if listening {
                    WatchdogStep::Continue { next: WatchdogState::Idle, timeout: false }
                } else {
                    WatchdogStep::Continue { next: s, timeout: false }
                }
            },
            WatchdogInput::Command(_) => WatchdogStep::Continue {
                next: WatchdogState::Armed { millis, listening: false },
                timeout: false,
            },
        },
    }
}

/// Which heartbeat the generator is sending, if any.
#[derive(Debug, Clone, Copy, PartialEq, Eq, Structural)]
pub enum HeartbeatState {
    BalanceMode,
    Normal,
    SafeMode,
    Silent,
}

/// The heartbeat period of a mode, in seconds.
pub open spec fn heartbeat_period(s: HeartbeatState, p: ProtocolSettings) -> Option<u64> {
    match s {
        HeartbeatState::BalanceMode => Some(p.balance_mode_spec()),
        HeartbeatState::Normal => Some(p.normal_spec()),
        HeartbeatState::SafeMode => Some(p.safe_mode_spec()),
        HeartbeatState::Silent => None,
    }
}

/// The timer command that arms for `secs` seconds.
pub open spec fn arm_for(secs: u64) -> Event {
    Event::InitTimer(
        if secs * 1000 <= u64::MAX {
            (secs * 1000) as u64
        } else {
            u64::MAX
        },
    )
}

fn period_of(s: HeartbeatState, settings: &ProtocolSettings) -> (p: Option<u64>)
    ensures
        p == heartbeat_period(s, *settings),
{
    match s {
        HeartbeatState::BalanceMode => Some(settings.get_time_between_heartbeats_balance_mode()),
        HeartbeatState::Normal => Some(settings.get_time_between_heartbeats_normal()),
        HeartbeatState::SafeMode => Some(settings.get_time_between_heartbeats_safe_mode()),
        HeartbeatState::Silent => None,
    }
}

/// Handles an action sent to the heartbeat generator: a start action selects
/// the mode and arms the timer with its period; a stop action stops the timer
/// (the mode is kept); other actions change nothing.
pub fn heartbeat_on_action(beat: &mut HeartbeatState, action: Action, settings: &ProtocolSettings) -> (cmd: Option<Event>)
    ensures
        match action {
            Action::SendHeartbeatMessagePhase => *final(beat) == HeartbeatState::BalanceMode && cmd == Some(
                arm_for(settings.balance_mode_spec()),
            ),
            Action::SendHeartbeatMessageNormal => *final(beat) == HeartbeatState::Normal && cmd == Some(
                arm_for(settings.normal_spec()),
            ),
            Action::SendHeartbeatMessageSafeMode => *final(beat) == HeartbeatState::SafeMode && cmd == Some(
                arm_for(settings.safe_mode_spec()),
            ),
            Action::StopSendHeartbeatMessagePhase | Action::StopSendHeartbeatMessageSafeMode => *final(beat)
                == *old(beat) && cmd == Some(Event::StopTimer),
            _ => *final(beat) == *old(beat) && cmd is None,
        },
{
    match action {
        Action::SendHeartbeatMessagePhase => {
            *beat = HeartbeatState::BalanceMode;
            Some(Event::InitTimer(secs_to_millis(settings.get_time_between_heartbeats_balance_mode())))
        },
        Action::SendHeartbeatMessageNormal => {
            *beat = HeartbeatState::Normal;
            Some(Event::InitTimer(secs_to_millis(settings.get_time_between_heartbeats_normal())))
        },
        Action::SendHeartbeatMessageSafeMode => {
            *beat = HeartbeatState::SafeMode;
            Some(Event::InitTimer(secs_to_millis(settings.get_time_between_heartbeats_safe_mode())))
        },
        Action::StopSendHeartbeatMessagePhase | Action::StopSendHeartbeatMessageSafeMode => Some(Event::StopTimer),
        _ => None,
    }
}

/// When the heartbeat timer fires: a heartbeat goes to every hub, then the
/// timer is armed again with the period of the current mode (not at all
/// when no mode was selected).
pub fn heartbeat_on_timeout(beat: HeartbeatState, ctx: &FsmContext, settings: &ProtocolSettings) -> (r: (
    FsmServiceResponse,
    Option<Event>,
))
    ensures
        r.0 matches FsmServiceResponse::ToHub(HubMessage::Heartbeat(h)) && broadcast_meta(h.metadata, ctx.id_edge@)
            && h.beat,
        r.1 == match heartbeat_period(beat, *settings) {
            Some(secs) => Some(arm_for(secs)),
            None => None,
        },
{
    let metadata = build_metadata(ctx, "all");
    let msg = FsmServiceResponse::ToHub(HubMessage::Heartbeat(Heartbeat { metadata, beat: true }));
    let next = match period_of(beat, settings) {
        Some(secs) => Some(Event::InitTimer(secs_to_millis(secs))),
        None => None,
    };
    (msg, next)
}

/// What the balancing service does with a command from the core.
#[derive(Debug, Clone, Copy, PartialEq, Eq, Structural)]
pub enum ServiceStep {
    /// Start the runtime.
    Spawn,
    /// Pass the command on to the running runtime.
    Forward,
    /// Stop the runtime and wait for its tasks.
    Teardown,
    /// Drop the command.
    Ignore,
}

/// The service's rule: without a runtime only `CreateRuntime` counts; with
/// one, epochs and messages are passed on and `DeleteRuntime` stops it.
pub open spec fn service_rule(running: bool, cmd: FsmServiceCommand) -> ServiceStep {
    if running {
        match cmd {
            FsmServiceCommand::Epoch(_) | FsmServiceCommand::ErrorEpoch | FsmServiceCommand::FromServer(_)
            | FsmServiceCommand::FromHub(_) => ServiceStep::Forward,
            FsmServiceCommand::DeleteRuntime => ServiceStep::Teardown,
            _ => ServiceStep::Ignore,
        }
    } else {
        match cmd {
            FsmServiceCommand::CreateRuntime => ServiceStep::Spawn,
            _ => ServiceStep::Ignore,
        }
    }
}

/// The firmware service's rule: without a runtime only `CreateRuntime`
/// counts; with one, update orders and hub answers are passed on and
/// `DeleteRuntime` stops it.
pub open spec fn firmware_service_rule(running: bool, cmd: FirmwareServiceCommand) -> ServiceStep {
    if running {
        match cmd {
            FirmwareServiceCommand::Update(_) | FirmwareServiceCommand::HubResponse(_) => ServiceStep::Forward,
            FirmwareServiceCommand::DeleteRuntime => ServiceStep::Teardown,
            FirmwareServiceCommand::CreateRuntime => ServiceStep::Ignore,
        }
    } else {
        match cmd {
            FirmwareServiceCommand::CreateRuntime => ServiceStep::Spawn,
            _ => ServiceStep::Ignore,
        }
    }
}

/// Decides what the firmware service does with a command from the core.
pub fn firmware_service_step(running: bool, cmd: &FirmwareServiceCommand) -> (s: ServiceStep)
    ensures
        s == firmware_service_rule(running, *cmd),
{
    if running {
        match cmd {
            FirmwareServiceCommand::Update(_) | FirmwareServiceCommand::HubResponse(_) => ServiceStep::Forward,
            FirmwareServiceCommand::DeleteRuntime => ServiceStep::Teardown,
            FirmwareServiceCommand::CreateRuntime => ServiceStep::Ignore,
        }
    } else {
        match cmd {
            FirmwareServiceCommand::CreateRuntime => ServiceStep::Spawn,
            _ => ServiceStep::Ignore,
        }
    }
}

/// Decides what the balancing service does with a command from the core.
pub fn service_step(running: bool, cmd: &FsmServiceCommand) -> (s: ServiceStep)
    ensures
        s == service_rule(running, *cmd),
{
    if running {
        match cmd {
            FsmServiceCommand::Epoch(_) | FsmServiceCommand::ErrorEpoch | FsmServiceCommand::FromServer(_)
            | FsmServiceCommand::FromHub(_) => ServiceStep::Forward,
            FsmServiceCommand::DeleteRuntime => ServiceStep::Teardown,
            _ => ServiceStep::Ignore,
        }
    } else {
        match cmd {
            FsmServiceCommand::CreateRuntime => ServiceStep::Spawn,
            _ => ServiceStep::Ignore,
        }
    }
}

/// Seconds the service waits for each task of a runtime it stops.
pub const TEARDOWN_WAIT_SECS: u64 = 2;

/// Whether the balancing service has a runtime, or has shut down.
#[derive(Debug, Clone, Copy, PartialEq, Eq, Structural)]
pub enum ServiceState {
    Idle,
    Running,
    Stopped,
}

/// What reaches the balancing service: a command of the core, or the
/// process's shutdown.
#[derive(Debug, Clone, PartialEq, Eq)]
pub enum ServiceInput {
    Command(FsmServiceCommand),
    Shutdown,
}

/// One decision of the service's life: the next state, what it does, and how
/// long it waits for each task when it stops a runtime.
#[derive(Debug, Clone, Copy, PartialEq, Eq, Structural)]
pub struct LifecycleStep {
    pub next: ServiceState,
    pub step: ServiceStep,
    pub wait_per_task_secs: u64,
}

/// The rule of the service's life: commands follow `service_rule`, a started
/// runtime makes the service running and a stopped one idle again; shutdown
/// stops a running runtime (waiting for its tasks) and ends the service, after
/// which everything is ignored. Stopping waits `TEARDOWN_WAIT_SECS` per task.
pub open spec fn lifecycle_rule(s: ServiceState, i: ServiceInput) -> LifecycleStep {
    match s {
        ServiceState::Stopped => LifecycleStep { next: s, step: ServiceStep::Ignore, wait_per_task_secs: 0 },
        _ => match i {
            ServiceInput::Shutdown => if s == ServiceState::Running {
                LifecycleStep {
                    next: ServiceState::Stopped,
                    step: ServiceStep::Teardown,
                    wait_per_task_secs: TEARDOWN_WAIT_SECS,
                }
            } else {
                LifecycleStep { next: ServiceState::Stopped, step: ServiceStep::Ignore, wait_per_task_secs: 0 }
            },
            ServiceInput::Command(c) => {
                let step = service_rule(s == ServiceState::Running, c);
                match step {
                    ServiceStep::Spawn => LifecycleStep {
                        next: ServiceState::Running,
                        step,
                        wait_per_task_secs: 0,
                    },
                    ServiceStep::Teardown => LifecycleStep {
                        next: ServiceState::Idle,
                        step,
                        wait_per_task_secs: TEARDOWN_WAIT_SECS,
                    },
                    _ => LifecycleStep { next: s, step, wait_per_task_secs: 0 },
                }
            },
        },
    }
}

/// One decision of the balancing service's life.
pub fn lifecycle_step(s: ServiceState, i: &ServiceInput) -> (r: LifecycleStep)
    ensures
        r == lifecycle_rule(s, *i),
{
    if s == ServiceState::Stopped {
        return LifecycleStep { next: s, step: ServiceStep::Ignore, wait_per_task_secs: 0 };
    }
    match i {
        ServiceInput::Shutdown => if s == ServiceState::Running {
            LifecycleStep { next: ServiceState::Stopped, step: ServiceStep::Teardown, wait_per_task_secs: TEARDOWN_WAIT_SECS }
        } else {
            LifecycleStep { next: ServiceState::Stopped, step: ServiceStep::Ignore, wait_per_task_secs: 0 }
        },
        ServiceInput::Command(c) => {
            let step = service_step(s == ServiceState::Running, c);
            match step {
                ServiceStep::Spawn => LifecycleStep { next: ServiceState::Running, step, wait_per_task_secs: 0 },
                ServiceStep::Teardown => LifecycleStep {
                    next: ServiceState::Idle,
                    step,
                    wait_per_task_secs: TEARDOWN_WAIT_SECS,
                },
                _ => LifecycleStep { next: s, step, wait_per_task_secs: 0 },
            }
        },
    }
}

/// The state after a run of inputs, and how many runtimes were started and
/// stopped along it.
pub open spec fn lifecycle_run(s: ServiceState, inputs: Seq<ServiceInput>) -> (ServiceState, nat, nat)
    decreases inputs.len(),
{
    if inputs.len() == 0 {
        (s, 0, 0)
    } else {
        let r = lifecycle_rule(s, inputs[0]);
        let rest = lifecycle_run(r.next, inputs.drop_first());
        (
            rest.0,
            rest.1 + if r.step == ServiceStep::Spawn {
                1nat
            } else {
                0nat
            },
            rest.2 + if r.step == ServiceStep::Teardown {
                1nat
            } else {
                0nat
            },
        )
    }
}

/// From the start, over any run of inputs, never two runtimes exist at once:
/// every runtime started is stopped before the next one starts, so the starts
/// exceed the stops by one exactly while the service is running; after a
/// shutdown the service stays stopped.
pub proof fn law_one_runtime_at_a_time(inputs: Seq<ServiceInput>)
    ensures
        lifecycle_run(ServiceState::Idle, inputs).1 == lifecycle_run(ServiceState::Idle, inputs).2 + if lifecycle_run(
            ServiceState::Idle,
            inputs,
        ).0 == ServiceState::Running {
            1nat
        } else {
            0nat
        },
        lifecycle_run(ServiceState::Stopped, inputs) == (ServiceState::Stopped, 0nat, 0nat),
{
    lemma_lifecycle_run(ServiceState::Idle, inputs);
    lemma_lifecycle_run(ServiceState::Stopped, inputs);
}

proof fn lemma_lifecycle_run(s: ServiceState, inputs: Seq<ServiceInput>)
    ensures
        (if s == ServiceState::Running { 1int } else { 0int }) + lifecycle_run(s, inputs).1 == lifecycle_run(s, inputs).2
            + (if lifecycle_run(s, inputs).0 == ServiceState::Running { 1int } else { 0int }),
        s == ServiceState::Stopped ==> lifecycle_run(s, inputs) == (ServiceState::Stopped, 0nat, 0nat),
    decreases inputs.len(),
{
    if inputs.len() > 0 {
        lemma_lifecycle_run(lifecycle_rule(s, inputs[0]).next, inputs.drop_first());
    }
}

/// Which responses of the runtime reach the core: epoch requests, new epochs,
/// the balancing notices and pings to the hubs, and the hello to the server.
pub open spec fn reaches_core(r: FsmServiceResponse) -> bool {
    match r {
        FsmServiceResponse::GetEpoch | FsmServiceResponse::NewEpoch(_) => true,
        FsmServiceResponse::ToHub(m) => match m {
            HubMessage::HandshakeToHub(_) | HubMessage::StateBalanceMode(_) | HubMessage::PhaseNotification(_)
            | HubMessage::StateNormal(_) | HubMessage::StateSafeMode(_) | HubMessage::Ping(_) => true,
            _ => false,
        },
        FsmServiceResponse::ToServer(m) => m is HelloWorld,
    }
}

/// Whether a response of the runtime is passed on to the core.
pub fn forwards_response(r: &FsmServiceResponse) -> (b: bool)
    ensures
        b == reaches_core(*r),
{
    match r {
        FsmServiceResponse::GetEpoch | FsmServiceResponse::NewEpoch(_) => true,
        FsmServiceResponse::ToHub(m) => match m {
            HubMessage::HandshakeToHub(_) | HubMessage::StateBalanceMode(_) | HubMessage::PhaseNotification(_)
            | HubMessage::StateNormal(_) | HubMessage::StateSafeMode(_) | HubMessage::Ping(_) => true,
            _ => false,
        },
        FsmServiceResponse::ToServer(m) => match m {
            ServerMessage::HelloWorld(_) => true,
            _ => false,
        },
    }
}

/// Whether a response of the heartbeat generator is passed on to the core:
/// only heartbeats to the hubs.
pub fn forwards_heartbeat(r: &FsmServiceResponse) -> (b: bool)
    ensures
        b == (r matches FsmServiceResponse::ToHub(HubMessage::Heartbeat(_))),
{
    match r {
        FsmServiceResponse::ToHub(HubMessage::Heartbeat(_)) => true,
        _ => false,
    }
}

} // verus!
