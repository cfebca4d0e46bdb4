use iot_edge::keyed::StringMap;
use iot_edge::message::domain::{
    DeleteHub, Metadata, Network as NetworkMsg, SerializedMessage, Settings,
};
use iot_edge::message::domain_for_table::{HubRow as TableHubRow, MetadataRow, MonitorRow};
use iot_edge::message::msg_type::{self, DestinationType};
use iot_edge::network::domain::{Batch, Hub, HubChanged, Network, NetworkAction, NetworkManager, NetworkRow, Topic};
use iot_edge::network::logic::{apply_network_action, delete_hub, load_batch, network_action, register_hub_from_settings};
use iot_edge::quorum::domain::ProtocolSettings;
use iot_edge::system::domain::System;
use iot_edge::system::network::NetworkBuilder;
use iot_edge::text::{parse_directive, parse_i32, parse_u16, trimmed};
use iot_edge::message::domain::SettingOk;
use iot_edge::network::logic::{apply_settings_ack, PendingSettings};
use iot_edge::database::domain::DataServiceCommand;
use iot_edge::message::domain::HubMessage;
use iot_edge::network::domain::NetworkChanged;
use iot_edge::network::logic::{hub_storage_command, network_change_notice, network_storage_commands};

fn system() -> System {
    System {
        id_edge: "e1".into(),
        host_server: "h".into(),
        host_port: "p".into(),
        host_local: "l".into(),
        cn: "c".into(),
        db_path: "d".into(),
        buffer_size: 1,
    }
}

fn meta(sender: &str, dest: &str) -> Metadata {
    Metadata { sender_user_id: sender.into(), destination_id: dest.into(), timestamp: 0 }
}

fn settings(hub: &str, net: &str) -> Settings {
    Settings {
        metadata: meta(hub, "e1"),
        network: net.into(),
        wifi_ssid: "w".into(),
        wifi_password: "pw".into(),
        mqtt_uri: "mqtt://x".into(),
        device_name: "dev".into(),
        sample: 5,
        energy_mode: 2,
    }
}

#[test]
fn builder_fills_defaults() {
    let n = NetworkBuilder::new().id_network("n1".into()).active(false).build().unwrap();
    assert_eq!(n.id_network(), "n1");
    assert_eq!(n.name_network(), "unknown");
    assert_eq!(n.topic_monitor(), "unknown");
    assert!(!*n.active());
    let mut n = NetworkBuilder::new().build().unwrap();
    assert!(*n.active());
    n.set_topic_alert("a".into());
    n.set_active(false);
    assert_eq!(n.topic_alert(), "a");
    assert_eq!(n.topic_data(), "unknown");
    assert!(!*n.active());
}

#[test]
fn protocol_settings_getters() {
    let p = ProtocolSettings::new(4, 10, 20, 30);
    assert_eq!(p.get_max_attempts(), 4);
    assert_eq!(p.get_time_between_heartbeats_balance_mode(), 10);
    assert_eq!(p.get_time_between_heartbeats_normal(), 20);
    assert_eq!(p.get_time_between_heartbeats_safe_mode(), 30);
}

#[test]
fn text_helpers() {
    assert_eq!(trimmed("  a b \t"), "a b");
    assert_eq!(parse_directive("  key   value extra"), Some(("key".to_string(), Some("value".to_string()))));
    assert_eq!(parse_directive("# comment"), None);
    assert_eq!(parse_directive("   "), None);
    assert_eq!(parse_directive("alone"), Some(("alone".to_string(), None)));
    assert_eq!(parse_u16("8883"), Some(8883));
    assert_eq!(parse_u16("65536"), None);
    assert_eq!(parse_u16("+1"), Some(1));
    assert_eq!(parse_i32("-42"), Some(-42));
    assert_eq!(parse_i32("-2147483648"), Some(i32::MIN));
    assert_eq!(parse_i32("2147483648"), None);
    assert_eq!(parse_i32("4x"), None);
}

#[test]
fn registry_networks_and_hubs() {
    let mut m = NetworkManager::new_empty(&system());
    m.add_network(Network::new("n1".into(), true));
    assert_eq!(m.get_total_hubs_by_network("n1"), None);
    m.add_hub("n1".into(), Hub { id: "h1".into(), device_name: "d".into(), energy_mode: 0 });
    m.add_hub("n1".into(), Hub { id: "h1".into(), device_name: "d".into(), energy_mode: 0 });
    m.add_hub("n1".into(), Hub { id: "h2".into(), device_name: "d".into(), energy_mode: 0 });
    assert_eq!(m.get_total_hubs_by_network("n1"), Some(2));
    assert_eq!(m.get_total_hubs(), 2);
    assert!(m.search_hub("n1", "h2"));
    let r = m.get_random_hub_id_by_network("n1").unwrap();
    assert!(r == "h1" || r == "h2");
    m.remove_hub("n1", "h1");
    assert!(!m.search_hub("n1", "h1"));
    assert_eq!(m.get_random_hub_id_by_network("n1"), Some("h2".to_string()));
    assert_eq!(m.get_random_hub_id_by_network("zz"), None);
    m.change_active(false, "n1");
    assert!(!m.network("n1").unwrap().active);
    m.remove_network("n1");
    assert!(m.network("n1").is_none());
}

#[test]
fn network_messages_change_registry() {
    let mut m = NetworkManager::new_empty(&system());
    let msg = |active: bool, delete: bool| NetworkMsg {
        metadata: meta("srv", "e1"),
        id_network: "n2".into(),
        name_network: "N".into(),
        active,
        delete_network: delete,
    };
    assert_eq!(network_action(&m, &msg(true, true)), NetworkAction::Ignore);
    assert_eq!(network_action(&m, &msg(true, false)), NetworkAction::Insert);
    apply_network_action(&mut m, &msg(true, false), NetworkAction::Insert);
    assert!(m.network("n2").is_some());
    assert_eq!(network_action(&m, &msg(true, false)), NetworkAction::Ignore);
    assert_eq!(network_action(&m, &msg(false, false)), NetworkAction::Update);
    assert_eq!(network_action(&m, &msg(false, true)), NetworkAction::Delete);
    apply_network_action(&mut m, &msg(false, true), NetworkAction::Delete);
    assert!(m.network("n2").is_none());
}

#[test]
fn hub_settings_and_deletion() {
    let mut m = NetworkManager::new_empty(&system());
    m.add_network(Network::new("n1".into(), true));
    // a network without any hub record counts every hub as known
    assert_eq!(register_hub_from_settings(&mut m, settings("h7", "n1")), None);
    m.add_hub("n1".into(), Hub { id: "h0".into(), device_name: "d".into(), energy_mode: 0 });
    let c = register_hub_from_settings(&mut m, settings("h7", "n1"));
    assert!(matches!(c, Some(HubChanged::Insert(_))));
    assert!(m.search_hub("n1", "h7"));
    assert_eq!(register_hub_from_settings(&mut m, settings("h7", "n1")), None);
    let order = DeleteHub { metadata: meta("srv", "h7"), network: "n1".into() };
    delete_hub(&mut m, &order);
    assert!(!m.search_hub("n1", "h7"));
}

#[test]
fn batches_fill_the_registry() {
    let mut m = NetworkManager::new_empty(&system());
    load_batch(&mut m, Batch::Network(vec![NetworkRow::new("a".into(), true), NetworkRow::new("b".into(), false)]));
    assert!(m.network("a").is_some());
    assert!(!m.network("b").unwrap().active);
    let row = settings("h1", "a").cast_settings_to_hub_row("a".into());
    assert_eq!(row.network_id, "a");
    assert_eq!(row.device_name, "dev");
    load_batch(&mut m, Batch::Hub(vec![row]));
    assert!(m.search_hub("a", "h1"));
}

#[test]
fn stored_rows_become_records() {
    let md = MetadataRow {
        sender_user_id: "h".into(),
        destination_type: DestinationType::Edge,
        destination_id: "e".into(),
        timestamp: "t".into(),
        topic_where_arrive: "iot/x".into(),
    };
    let row = MonitorRow { metadata: md.clone(), mem_free: 5, mem_free_hm: 9, wifi_rssi: -3, active_time: "10".into(), ..Default::default() };
    let mon: msg_type::Monitor = row.cast_monitor();
    assert_eq!(mon.mem_free, 5);
    assert_eq!(mon.mem_free_hm, 9);
    assert_eq!(mon.wifi_rssi, -3);
    assert_eq!(mon.metadata.destination_type, DestinationType::Edge);
    let hub = TableHubRow { metadata: md, device_name: "d".into(), energy_mode: 3, ..Default::default() }.cast_to_hub();
    assert_eq!(hub.id, "h");
    assert_eq!(hub.energy_mode, 3);
    let s = msg_type::SerializedMessage::new("t".into(), vec![1], 1, true);
    assert_eq!(s.qos, 1);
    let s = SerializedMessage::new("topic".into(), vec![7, 8], 2, false);
    assert_eq!(s.get_topic(), "topic");
    assert_eq!(s.get_payload(), &[7, 8]);
    assert_eq!(s.get_qos(), 2);
    assert!(!s.get_retain());
}

#[test]
fn keyed_map_basics() {
    let mut k: StringMap<u32> = StringMap::new();
    k.insert("a".into(), 1);
    k.insert("a".into(), 2);
    assert_eq!(k.len(), 1);
    assert_eq!(k.get("a"), Some(&2));
    assert!(!k.insert_if_absent("a".into(), 3));
    assert_eq!(k.take("a"), Some(2));
    assert!(!k.contains_key("a"));
    let t = Topic::new("x".into(), 1);
    assert_eq!(t.duplicate().topic, "x");
}

#[test]
fn acknowledged_settings_replace_the_hub() {
    let mut m = NetworkManager::new_empty(&system());
    m.add_network(Network::new("n1".into(), true));
    m.add_hub("n1".into(), Hub { id: "h1".into(), device_name: "old".into(), energy_mode: 0 });
    let mut p = PendingSettings::new();
    // the row is kept under the sender id of the server's message ...
    let mut s = settings("n1", "n1");
    s.device_name = "new".into();
    s.metadata.sender_user_id = "n1".into();
    p.record(&s);
    // ... and found under the acknowledged network id, for the acknowledging hub
    let ack = SettingOk { metadata: meta("n1", "e1"), network: "n1".into(), handshake: true };
    let c = apply_settings_ack(&p, &mut m, &ack);
    assert!(matches!(c, Some(HubChanged::Update(ref r)) if r.device_name == "new"));
    assert!(m.search_hub("n1", "n1"));
    let other = SettingOk { metadata: meta("h9", "e1"), network: "n1".into(), handshake: true };
    assert_eq!(apply_settings_ack(&p, &mut m, &other), None);
    assert_eq!(p.row_for("zz", "n1"), None);
}

#[test]
fn network_changes_notify_and_persist() {
    let id = "e1".to_string();
    match network_change_notice(&id, &NetworkChanged::Delete { id: "n3".into() }, 42) {
        Some(HubMessage::DeleteHub(d)) => {
            assert_eq!(d.network, "n3");
            assert_eq!(d.metadata.destination_id, "all");
            assert_eq!(d.metadata.timestamp, 42);
        },
        other => panic!("unexpected {:?}", other),
    }
    match network_change_notice(&id, &NetworkChanged::Update(NetworkRow::new("n4".into(), false)), 1) {
        Some(HubMessage::ActiveHub(a)) => {
            assert_eq!(a.network, "n4");
            assert!(!a.active);
        },
        other => panic!("unexpected {:?}", other),
    }
    assert_eq!(network_change_notice(&id, &NetworkChanged::Insert(NetworkRow::new("n5".into(), true)), 1), None);
    assert_eq!(
        network_storage_commands(NetworkChanged::Delete { id: "n3".into() }),
        vec![DataServiceCommand::DeleteNetwork("n3".into()), DataServiceCommand::DeleteAllHubByNetwork("n3".into())]
    );
    assert_eq!(hub_storage_command(HubChanged::Delete("n1".into())), DataServiceCommand::DeleteHub("n1".into()));
}

#[test]
fn registry_changes_keep_control_topics() {
    let mut m = NetworkManager::new_empty(&system());
    let before = m.control_topics();
    m.add_network(Network::new("n1".into(), true));
    m.change_active(false, "n1");
    m.add_hub("n1".into(), Hub { id: "h1".into(), device_name: "d".into(), energy_mode: 0 });
    m.add_hub("n1".into(), Hub { id: "h1".into(), device_name: "e".into(), energy_mode: 1 });
    m.add_hub("n1".into(), Hub { id: "h2".into(), device_name: "d".into(), energy_mode: 0 });
    assert_eq!(m.get_total_hubs(), 3);
    m.remove_hub("n1", "h1");
    assert_eq!(m.get_total_hubs(), 1);
    m.remove_hub("zz", "h2");
    assert_eq!(m.get_total_hubs(), 1);
    m.remove_network("n1");
    let after = m.control_topics();
    assert_eq!(before.0.topic, after.0.topic);
    assert_eq!(before.1.topic, after.1.topic);
    assert_eq!(before.2.topic, after.2.topic);
    assert_eq!(after.0.topic, "iot/e1/handshake");
}

#[test]
fn default_protocol_settings_are_zero() {
    let p = ProtocolSettings::default();
    assert_eq!(p.get_max_attempts(), 0);
    assert_eq!(p.get_time_between_heartbeats_balance_mode(), 0);
    assert_eq!(p.get_time_between_heartbeats_normal(), 0);
    assert_eq!(p.get_time_between_heartbeats_safe_mode(), 0);
}
