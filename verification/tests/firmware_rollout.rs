use iot_edge::firmware::rollout::{
    broadcast_command, canary_command, on_hub_answer, select_canary, start_rollout, RolloutEvent, RolloutSession,
};
use iot_edge::message::domain::{FirmwareOk, HubMessage, Metadata, UpdateFirmware};
use iot_edge::network::domain::{Hub, Network, NetworkManager};
use iot_edge::system::domain::System;

fn system() -> System {
    System {
        id_edge: "e1".into(),
        host_server: "h".into(),
        host_port: "p".into(),
        host_local: "l".into(),
        cn: "c".into(),
        db_path: "d".into(),
        buffer_size: 1,
    }
}

fn update() -> UpdateFirmware {
    UpdateFirmware {
        metadata: Metadata { sender_user_id: "server".into(), destination_id: "e1".into(), timestamp: 5 },
        network: "n1".into(),
        version: "2.0".into(),
        url: "http://fw".into(),
        sha256: "abc".into(),
    }
}

fn answer(hub: &str, ok: bool) -> FirmwareOk {
    FirmwareOk {
        metadata: Metadata { sender_user_id: hub.into(), destination_id: "e1".into(), timestamp: 6 },
        version: "2.0".into(),
        is_ok: ok,
    }
}

fn manager() -> NetworkManager {
    let mut m = NetworkManager::new_empty(&system());
    m.add_network(Network::new("n1".into(), true));
    m.add_hub("n1".into(), Hub { id: "h1".into(), device_name: "d".into(), energy_mode: 0 });
    m.add_hub("n1".into(), Hub { id: "h2".into(), device_name: "d".into(), energy_mode: 0 });
    m
}

#[test]
fn canary_then_broadcast_completes() {
    let m = manager();
    let mut s = start_rollout(&m, &update()).unwrap();
    assert_eq!(s.total_hubs(), 2);
    let canary = select_canary(&m, &s, &update()).unwrap();
    match canary {
        HubMessage::UpdateFirmware(u) => {
            assert!(u.metadata.destination_id == "h1" || u.metadata.destination_id == "h2");
            assert_eq!(u.version, "2.0");
        },
        _ => panic!("not an update"),
    }
    assert_eq!(on_hub_answer(&mut s, &answer("h1", true)), Some(RolloutEvent::MessageFromHub));
    s.enter_broadcast();
    match broadcast_command(&update()) {
        HubMessage::UpdateFirmware(u) => assert_eq!(u.metadata.destination_id, "all"),
        _ => panic!("not an update"),
    }
    assert_eq!(on_hub_answer(&mut s, &answer("h1", true)), None);
    assert_eq!(on_hub_answer(&mut s, &answer("h1", false)), None);
    assert_eq!(on_hub_answer(&mut s, &answer("h2", true)), Some(RolloutEvent::AllMessageReceived));
    assert_eq!(s.successes(), 2);
    assert_eq!(s.version(), "2.0");
}

#[test]
fn failures_abort_the_rollout() {
    let mut s = RolloutSession::new("n1".into(), 2);
    assert_eq!(on_hub_answer(&mut s, &answer("h1", false)), Some(RolloutEvent::Error));
    s.enter_broadcast();
    assert_eq!(on_hub_answer(&mut s, &answer("h1", false)), None);
    assert_eq!(on_hub_answer(&mut s, &answer("h2", true)), Some(RolloutEvent::Error));
    assert_eq!(s.successes(), 1);
}

#[test]
fn no_canary_without_hubs() {
    let mut m = NetworkManager::new_empty(&system());
    m.add_network(Network::new("n1".into(), true));
    assert!(start_rollout(&m, &update()).is_none());
    let s = RolloutSession::new("n1".into(), 0);
    assert_eq!(select_canary(&m, &s, &update()), Err(RolloutEvent::Error));
    assert_eq!(canary_command(&update(), None), Err(RolloutEvent::Error));
    match canary_command(&update(), Some("h9".into())) {
        Ok(HubMessage::UpdateFirmware(u)) => assert_eq!(u.metadata.destination_id, "h9"),
        _ => panic!("not an update"),
    }
}
