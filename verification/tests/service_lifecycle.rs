use iot_edge::database::domain::{on_connectivity, SyncState};
use iot_edge::firmware::rollout::{outcome_report, RolloutSession, PERCENT_100_BITS};
use iot_edge::fsm::domain::FsmServiceCommand;
use iot_edge::fsm::runtime::{lifecycle_step, ServiceInput, ServiceState, ServiceStep, TEARDOWN_WAIT_SECS};
use iot_edge::message::domain::ServerMessage;
use iot_edge::message::msg_type::{MessageToHub, StateNormal};
use iot_edge::network::domain::{Hub, Network, NetworkManager};
use iot_edge::system::domain::{InternalEvent, System};

#[test]
fn one_runtime_at_a_time_and_shutdown_is_final() {
    let mut s = ServiceState::Idle;
    let r = lifecycle_step(s, &ServiceInput::Command(FsmServiceCommand::Epoch(3)));
    assert_eq!(r.step, ServiceStep::Ignore);
    let r = lifecycle_step(s, &ServiceInput::Command(FsmServiceCommand::CreateRuntime));
    assert_eq!((r.next, r.step), (ServiceState::Running, ServiceStep::Spawn));
    s = r.next;
    let r = lifecycle_step(s, &ServiceInput::Command(FsmServiceCommand::CreateRuntime));
    assert_eq!(r.step, ServiceStep::Ignore);
    let r = lifecycle_step(s, &ServiceInput::Command(FsmServiceCommand::ErrorEpoch));
    assert_eq!(r.step, ServiceStep::Forward);
    let r = lifecycle_step(s, &ServiceInput::Command(FsmServiceCommand::DeleteRuntime));
    assert_eq!((r.next, r.step, r.wait_per_task_secs), (ServiceState::Idle, ServiceStep::Teardown, 2));
    let r = lifecycle_step(ServiceState::Running, &ServiceInput::Shutdown);
    assert_eq!((r.next, r.step, r.wait_per_task_secs), (ServiceState::Stopped, ServiceStep::Teardown, TEARDOWN_WAIT_SECS));
    let r = lifecycle_step(ServiceState::Stopped, &ServiceInput::Command(FsmServiceCommand::CreateRuntime));
    assert_eq!((r.next, r.step), (ServiceState::Stopped, ServiceStep::Ignore));
}

#[test]
fn stored_data_sent_once_per_reconnection_over_a_run() {
    let mut s = SyncState::new();
    let events = [
        InternalEvent::ServerConnected,
        InternalEvent::ServerConnected,
        InternalEvent::LocalConnected,
        InternalEvent::ServerDisconnected,
        InternalEvent::ServerDisconnected,
        InternalEvent::ServerConnected,
    ];
    let sends: usize = events.iter().filter(|e| on_connectivity(&mut s, e)).count();
    assert_eq!(sends, 2);
}

#[test]
fn total_hubs_is_the_sum_of_networks() {
    let sys = System {
        id_edge: "e".into(),
        host_server: "h".into(),
        host_port: "p".into(),
        host_local: "l".into(),
        cn: "c".into(),
        db_path: "d".into(),
        buffer_size: 1,
    };
    let mut m = NetworkManager::new_empty(&sys);
    assert_eq!(m.get_total_hubs(), 0);
    m.add_network(Network::new("a".into(), true));
    m.add_hub("a".into(), Hub { id: "h1".into(), device_name: "d".into(), energy_mode: 0 });
    m.add_hub("b".into(), Hub { id: "h2".into(), device_name: "d".into(), energy_mode: 0 });
    m.add_hub("b".into(), Hub { id: "h3".into(), device_name: "d".into(), energy_mode: 0 });
    let sum = m.get_total_hubs_by_network("a").unwrap() + m.get_total_hubs_by_network("b").unwrap();
    assert_eq!(m.get_total_hubs(), sum as u64);
    assert_eq!(sum, 3);
}

#[test]
fn rollout_outcome_reports_full_success_only_at_100() {
    let s = RolloutSession::new("n1".into(), 4);
    match outcome_report(&"e1".to_string(), &s, 55, 100.0f32.to_bits()) {
        ServerMessage::FirmwareOutcome(o) => {
            assert!(o.is_ok);
            assert_eq!(o.network, "n1");
            assert_eq!(o.metadata.destination_id, "Server0");
            assert_eq!(o.metadata.timestamp, 55);
        },
        _ => panic!("not an outcome"),
    }
    assert_eq!(PERCENT_100_BITS, 100.0f32.to_bits());
    match outcome_report(&"e1".to_string(), &s, 55, 75.0f32.to_bits()) {
        ServerMessage::FirmwareOutcome(o) => {
            assert!(!o.is_ok);
            assert_eq!(f32::from_bits(o.percentage_ok), 75.0);
        },
        _ => panic!("not an outcome"),
    }
    let m = MessageToHub::StateNormal(StateNormal { state: "normal".into() });
    assert!(matches!(m, MessageToHub::StateNormal(_)));
}
