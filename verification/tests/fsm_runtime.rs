use iot_edge::fsm::domain::{
    Action, Event, FsmServiceCommand, FsmServiceResponse, FsmState, StateGlobal, StateOfSession,
    SubStateBalanceMode, SubStatePhase, SubStateQuorum, UpdateSession,
};
use iot_edge::fsm::logic::{
    handle_action, on_command, quorum_algorithm, quorum_phase, quorum_safe_mode, FsmContext, FsmOutput,
};
use iot_edge::fsm::runtime::{
    forwards_heartbeat, forwards_response, handle_transition, heartbeat_on_action, heartbeat_on_timeout,
    secs_to_millis, service_step, firmware_service_step, timer_command, watchdog_step, HeartbeatState,
    ServiceStep, TimerCommand, WatchdogInput, WatchdogState, WatchdogStep,
};
use iot_edge::firmware::domain::FirmwareServiceCommand;
use iot_edge::message::domain::{
    EmptyQueue, HandshakeFromHub, Heartbeat, HelloWorld, HubMessage, Metadata, Ping, ServerMessage,
};
use iot_edge::network::domain::{Hub, Network, NetworkManager};
use iot_edge::quorum::domain::ProtocolSettings;
use iot_edge::system::domain::System;

fn system() -> System {
    System {
        id_edge: "edge-1".into(),
        host_server: "s".into(),
        host_port: "1".into(),
        host_local: "l".into(),
        cn: "cn".into(),
        db_path: "db".into(),
        buffer_size: 8,
    }
}

fn manager_with_hubs(n: usize) -> NetworkManager {
    let mut m = NetworkManager::new_empty(&system());
    m.add_network(Network::new("net1".into(), true));
    for i in 0..n {
        m.add_hub("net1".into(), Hub { id: format!("hub{}", i), device_name: "d".into(), energy_mode: 1 });
    }
    m
}

fn meta(sender: &str) -> Metadata {
    Metadata { sender_user_id: sender.into(), destination_id: "edge-1".into(), timestamp: 1 }
}

fn ctx() -> FsmContext {
    FsmContext { id_edge: "edge-1".into() }
}

fn session_with_handshakes(n: usize) -> UpdateSession {
    let mut s = UpdateSession::new();
    for i in 0..n {
        s.insert_handshake(format!("hub{}", i), 1);
    }
    s
}

#[test]
fn quorum_out_of_attempts() {
    let mut s = session_with_handshakes(10);
    for _ in 0..4 {
        s.increment_attempts();
    }
    assert_eq!(quorum_algorithm(&mut s, 3, 10), Event::NotApproveNotAttempts);
    assert_eq!(s.get_total_handshake(), 10);
}

#[test]
fn quorum_threshold_in_percent() {
    // first round: 85 points of the hubs must answer
    let mut s = session_with_handshakes(9);
    assert_eq!(quorum_algorithm(&mut s, 5, 10), Event::ApproveQuorum);
    let mut s = session_with_handshakes(8);
    assert_eq!(quorum_algorithm(&mut s, 5, 10), Event::NotApproveQuorum);
    assert_eq!(s.get_total_handshake(), 0);
    // after three repeated rounds the threshold is 70 points
    let mut s = session_with_handshakes(7);
    for _ in 0..3 {
        s.increment_attempts();
    }
    assert_eq!(quorum_algorithm(&mut s, 5, 10), Event::ApproveQuorum);
}

#[test]
fn quorum_without_known_hubs() {
    let mut s = session_with_handshakes(1);
    assert_eq!(quorum_algorithm(&mut s, 5, 0), Event::ApproveQuorum);
    let mut s = session_with_handshakes(0);
    assert_eq!(quorum_algorithm(&mut s, 5, 0), Event::NotApproveQuorum);
}

#[test]
fn phase_quorum_counts_each_hub_once() {
    let mut s = UpdateSession::new();
    let report = |id: &str| HubMessage::EmptyQueue(EmptyQueue { metadata: meta(id), queue_empty: true });
    assert!(!quorum_phase(&mut s, &report("a"), 5));
    assert!(!quorum_phase(&mut s, &report("a"), 5));
    assert!(!quorum_phase(&mut s, &report("b"), 5));
    assert!(!quorum_phase(&mut s, &report("c"), 5));
    assert_eq!(s.get_total_empty(), 3);
    assert!(quorum_phase(&mut s, &report("d"), 5));
    let not_empty = HubMessage::EmptyQueue(EmptyQueue { metadata: meta("e"), queue_empty: false });
    assert!(!quorum_phase(&mut s, &not_empty, 5));
    assert_eq!(s.get_total_empty(), 4);
}

#[test]
fn safe_mode_quorum_is_seventy_percent() {
    let mut s = UpdateSession::new();
    for id in ["a", "b", "c", "d", "e", "f"] {
        let m = HubMessage::EmptyQueueSafe(EmptyQueue { metadata: meta(id), queue_empty: true });
        assert!(!quorum_safe_mode(&mut s, &m, 10));
    }
    let m = HubMessage::EmptyQueueSafe(EmptyQueue { metadata: meta("g"), queue_empty: true });
    assert!(quorum_safe_mode(&mut s, &m, 10));
    let wrong_kind = HubMessage::EmptyQueue(EmptyQueue { metadata: meta("h"), queue_empty: true });
    assert!(!quorum_safe_mode(&mut s, &wrong_kind, 10));
}

#[test]
fn entering_handshake_sends_notice_handshake_and_timer() {
    let m = manager_with_hubs(2);
    let mut s = UpdateSession::new();
    let out = handle_action(Action::OnEntryBalance(SubStateBalanceMode::InHandshake), &ctx(), 7, &mut s, &m, 3);
    assert_eq!(out.len(), 3);
    match &out[0] {
        FsmOutput::ToCore(FsmServiceResponse::ToHub(HubMessage::StateBalanceMode(b))) => {
            assert_eq!(b.state, "balance_mode");
            assert_eq!(b.sub_state, "in_handshake");
            assert_eq!(b.balance_epoch, 7);
            assert_eq!(b.metadata.destination_id, "all");
            assert_eq!(b.metadata.sender_user_id, "edge-1");
        },
        other => panic!("unexpected {:?}", other),
    }
    match &out[1] {
        FsmOutput::ToCore(FsmServiceResponse::ToHub(HubMessage::HandshakeToHub(h))) => {
            assert_eq!(h.flag, "in");
            assert_eq!(h.balance_epoch, 7);
        },
        other => panic!("unexpected {:?}", other),
    }
    assert_eq!(out[2], FsmOutput::ToTimer(Event::InitTimer(180_000)));
    assert_eq!(*s.get_state(), StateOfSession::InHandshake);
}

#[test]
fn entering_quorum_decides_and_repeat_counts() {
    let m = manager_with_hubs(1);
    let mut s = UpdateSession::new();
    s.insert_handshake("hub0".into(), 1);
    let out = handle_action(Action::OnEntryQuorum(SubStateQuorum::CheckQuorumIn), &ctx(), 1, &mut s, &m, 3);
    assert_eq!(out, vec![FsmOutput::ToFsm(Event::ApproveQuorum)]);
    assert_eq!(*s.get_state(), StateOfSession::Quorum);
    let out = handle_action(Action::OnEntryQuorum(SubStateQuorum::RepeatHandshakeOut), &ctx(), 1, &mut s, &m, 3);
    assert_eq!(out.len(), 2);
    assert!(matches!(&out[0], FsmOutput::ToCore(FsmServiceResponse::ToHub(HubMessage::HandshakeToHub(h))) if h.flag == "out"));
    assert_eq!(s.get_total_attempts(), 1);
    assert_eq!(*s.get_state(), StateOfSession::RepeatHandshake);
}

#[test]
fn entering_phases_and_modes() {
    let m = manager_with_hubs(0);
    let mut s = session_with_handshakes(2);
    s.increment_attempts();
    let out = handle_action(Action::OnEntryPhase(SubStatePhase::Alert), &ctx(), 2, &mut s, &m, 3);
    assert_eq!(out.len(), 4);
    assert_eq!(out[0], FsmOutput::ToTimer(Event::InitTimer(600_000)));
    assert_eq!(out[3], FsmOutput::ToHeartbeat(Action::SendHeartbeatMessagePhase));
    assert_eq!(s.get_total_attempts(), 0);
    assert_eq!(s.get_total_handshake(), 0);
    assert_eq!(*s.get_state(), StateOfSession::PhaseAlert);
    let out = handle_action(Action::OnEntryPhase(SubStatePhase::Data), &ctx(), 2, &mut s, &m, 3);
    assert_eq!(out.len(), 3);
    let out = handle_action(Action::OnEntryNormal, &ctx(), 2, &mut s, &m, 3);
    assert_eq!(out[1], FsmOutput::ToHeartbeat(Action::SendHeartbeatMessageNormal));
    let out = handle_action(Action::OnEntrySafeMode, &ctx(), 2, &mut s, &m, 3);
    assert_eq!(out.len(), 4);
    assert_eq!(out[0], FsmOutput::ToTimer(Event::InitTimer(900_000)));
    match &out[1] {
        FsmOutput::ToCore(FsmServiceResponse::ToHub(HubMessage::StateSafeMode(sm))) => {
            assert!(sm.jitter <= 5);
            assert_eq!(sm.frequency, 4);
            assert_eq!(sm.state, "safe_mode");
        },
        other => panic!("unexpected {:?}", other),
    }
    assert_eq!(*s.get_state(), StateOfSession::SafeMode);
    let out = handle_action(Action::StopTimer, &ctx(), 2, &mut s, &m, 3);
    assert_eq!(out, vec![FsmOutput::ToTimer(Event::StopTimer)]);
    let out = handle_action(Action::OnEntryBalance(SubStateBalanceMode::InitBalanceMode), &ctx(), 2, &mut s, &m, 3);
    assert_eq!(out, vec![FsmOutput::ToCore(FsmServiceResponse::GetEpoch)]);
}

#[test]
fn commands_update_session_and_epoch() {
    let m = manager_with_hubs(1);
    let mut s = UpdateSession::new();
    let mut epoch: u32 = 0;
    let out = on_command(FsmServiceCommand::Epoch(4), &ctx(), &mut epoch, &mut s, &m);
    assert_eq!(epoch, 5);
    assert_eq!(out, vec![FsmOutput::ToFsm(Event::BalanceEpochOk), FsmOutput::ToCore(FsmServiceResponse::NewEpoch(5))]);
    let hs = |e: u32| {
        FsmServiceCommand::FromHub(HubMessage::HandshakeFromHub(HandshakeFromHub {
            metadata: meta("hub0"),
            state: "ok".into(),
            balance_epoch: e,
        }))
    };
    on_command(hs(5), &ctx(), &mut epoch, &mut s, &m);
    assert_eq!(s.get_total_handshake(), 0);
    s.set_state(StateOfSession::InHandshake);
    on_command(hs(4), &ctx(), &mut epoch, &mut s, &m);
    assert_eq!(s.get_total_handshake(), 0);
    on_command(hs(5), &ctx(), &mut epoch, &mut s, &m);
    assert_eq!(s.get_total_handshake(), 1);
    s.set_state(StateOfSession::PhaseData);
    let empty = FsmServiceCommand::FromHub(HubMessage::EmptyQueue(EmptyQueue { metadata: meta("hub0"), queue_empty: true }));
    let out = on_command(empty, &ctx(), &mut epoch, &mut s, &m);
    assert_eq!(out, vec![FsmOutput::ToFsm(Event::QuorumPhase), FsmOutput::ToTimer(Event::StopTimer)]);
    let ping = FsmServiceCommand::FromHub(HubMessage::Ping(Ping { metadata: meta("hub9"), network: "net1".into(), ping: true }));
    let out = on_command(ping, &ctx(), &mut epoch, &mut s, &m);
    match &out[0] {
        FsmOutput::ToCore(FsmServiceResponse::ToHub(HubMessage::Ping(p))) => {
            assert_eq!(p.metadata.destination_id, "hub9");
            assert_eq!(p.network, "net1");
            assert!(p.ping);
        },
        other => panic!("unexpected {:?}", other),
    }
    let out = on_command(FsmServiceCommand::ErrorEpoch, &ctx(), &mut epoch, &mut s, &m);
    assert_eq!(out, vec![FsmOutput::ToFsm(Event::BalanceEpochNotOk)]);
}

#[test]
fn transitions_move_or_report() {
    let mut st = FsmState::new();
    let acts = handle_transition(&mut st, Event::Start).unwrap();
    assert_eq!(st.global, StateGlobal::BalanceMode);
    // the transition's own action, then the entry action of the new sub-state
    assert_eq!(
        acts,
        vec![
            Action::OnEntryBalance(SubStateBalanceMode::InitBalanceMode),
            Action::OnEntryBalance(SubStateBalanceMode::InitBalanceMode)
        ]
    );
    let before = st;
    let err = handle_transition(&mut st, Event::WaitOk).unwrap_err();
    assert!(!err.is_empty());
    assert_eq!(st.global, before.global);
    assert_eq!(st.balance, before.balance);
}

#[test]
fn watchdog_cycle() {
    let armed = watchdog_step(WatchdogState::Idle, WatchdogInput::Command(Some(TimerCommand::Init(50))));
    assert_eq!(
        armed,
        WatchdogStep::Continue { next: WatchdogState::Armed { millis: 50, listening: true }, timeout: false }
    );
    let s = WatchdogState::Armed { millis: 50, listening: true };
    assert_eq!(
        watchdog_step(s, WatchdogInput::Elapsed),
        WatchdogStep::Continue { next: WatchdogState::Idle, timeout: true }
    );
    assert_eq!(
        watchdog_step(s, WatchdogInput::Command(Some(TimerCommand::Stop))),
        WatchdogStep::Continue { next: WatchdogState::Idle, timeout: false }
    );
    assert_eq!(watchdog_step(s, WatchdogInput::Cancelled), WatchdogStep::Stop);
    assert_eq!(watchdog_step(WatchdogState::Idle, WatchdogInput::Command(None)), WatchdogStep::Stop);
    assert_eq!(
        watchdog_step(WatchdogState::Idle, WatchdogInput::Command(Some(TimerCommand::Stop))),
        WatchdogStep::Continue { next: WatchdogState::Idle, timeout: false }
    );
    let deaf = watchdog_step(s, WatchdogInput::Command(Some(TimerCommand::Other)));
    assert_eq!(deaf, WatchdogStep::Continue { next: WatchdogState::Armed { millis: 50, listening: false }, timeout: false });
    assert_eq!(timer_command(Event::InitTimer(3)), TimerCommand::Init(3));
    assert_eq!(timer_command(Event::Timeout), TimerCommand::Other);
}

#[test]
fn heartbeat_generator_modes() {
    let p = ProtocolSettings::new(3, 10, 20, 30);
    let mut beat = HeartbeatState::Silent;
    let (msg, next) = heartbeat_on_timeout(beat, &ctx(), &p);
    assert!(matches!(msg, FsmServiceResponse::ToHub(HubMessage::Heartbeat(Heartbeat { beat: true, .. }))));
    assert_eq!(next, None);
    assert_eq!(heartbeat_on_action(&mut beat, Action::SendHeartbeatMessageNormal, &p), Some(Event::InitTimer(20_000)));
    assert_eq!(beat, HeartbeatState::Normal);
    assert_eq!(heartbeat_on_timeout(beat, &ctx(), &p).1, Some(Event::InitTimer(20_000)));
    assert_eq!(heartbeat_on_action(&mut beat, Action::StopSendHeartbeatMessagePhase, &p), Some(Event::StopTimer));
    assert_eq!(beat, HeartbeatState::Normal);
    assert_eq!(heartbeat_on_action(&mut beat, Action::OnEntryNormal, &p), None);
    assert_eq!(secs_to_millis(u64::MAX), u64::MAX);
}

#[test]
fn service_lifecycle_and_filters() {
    assert_eq!(service_step(false, &FsmServiceCommand::CreateRuntime), ServiceStep::Spawn);
    assert_eq!(service_step(false, &FsmServiceCommand::Epoch(1)), ServiceStep::Ignore);
    assert_eq!(service_step(true, &FsmServiceCommand::Epoch(1)), ServiceStep::Forward);
    assert_eq!(service_step(true, &FsmServiceCommand::CreateRuntime), ServiceStep::Ignore);
    assert_eq!(service_step(true, &FsmServiceCommand::DeleteRuntime), ServiceStep::Teardown);
    assert_eq!(firmware_service_step(false, &FirmwareServiceCommand::CreateRuntime), ServiceStep::Spawn);
    assert_eq!(firmware_service_step(true, &FirmwareServiceCommand::DeleteRuntime), ServiceStep::Teardown);
    assert!(forwards_response(&FsmServiceResponse::GetEpoch));
    let hello = ServerMessage::HelloWorld(HelloWorld { metadata: meta("e"), hello: true });
    assert!(forwards_response(&FsmServiceResponse::ToServer(hello)));
    let hb = FsmServiceResponse::ToHub(HubMessage::Heartbeat(Heartbeat { metadata: meta("e"), beat: true }));
    assert!(!forwards_response(&hb));
    assert!(forwards_heartbeat(&hb));
}
