use iot_edge::database::batch::TableDataVector;
use iot_edge::message::domain::{
    AlertTh, HelloWorld, Measurement, MessageServiceCommand, Metadata, Monitor, ServerMessage, ServerStatus,
    SettingOk, SystemMetrics,
};
use iot_edge::message::upload::{
    convert_to_proto_upload, extract_metadata, from_server, from_server_step, handle_grpc_message,
    initial_server_status, process_batch, to_server_step, DeleteHubMsg, DownloadPayload, Downlink, FromEdge,
    HeartbeatMsg, MetadataMsg, SettingOkMsg, ToEdgeMsg, UploadPayload,
};
use iot_edge::system::domain::InternalEvent;

fn meta() -> Metadata {
    Metadata { sender_user_id: "hub1".into(), destination_id: "edge".into(), timestamp: 7 }
}

fn meta_msg() -> MetadataMsg {
    MetadataMsg { sender_user_id: "srv".into(), destination_id: "e1".into(), timestamp: 9 }
}

#[test]
fn readings_become_uploads() {
    let r = Measurement { metadata: meta(), network: "n1".into(), sample: 30, temperature: 21.5f32.to_bits(), ..Default::default() };
    let up = convert_to_proto_upload(ServerMessage::Report(r), "e1".into()).unwrap();
    assert_eq!(up.edge_id, "e1");
    match up.payload {
        Some(UploadPayload::Measurement(m)) => {
            assert_eq!(m.sample, 30);
            assert_eq!(f32::from_bits(m.temperature), 21.5);
            assert_eq!(m.network, "n1");
            assert_eq!(m.metadata.unwrap().timestamp, 7);
        },
        _ => panic!("not a measurement"),
    }
    let mon = Monitor { metadata: meta(), wifi_rssi: -60, ..Default::default() };
    match convert_to_proto_upload(ServerMessage::Monitor(mon), "e1".into()).unwrap().payload {
        Some(UploadPayload::Monitor(m)) => assert_eq!(m.wifi_rssi, -60),
        _ => panic!("not a monitor"),
    }
}

#[test]
fn missing_wifi_values_are_sent_as_zero() {
    let m = SystemMetrics {
        metadata: meta(),
        uptime_seconds: 100,
        cpu_usage_percent: 12.5f32.to_bits(),
        cpu_temp_celsius: 50.0f32.to_bits(),
        ram_total_mb: 1024,
        ram_used_mb: 512,
        sd_total_gb: 32,
        sd_used_gb: 8,
        sd_usage_percent: 25.0f32.to_bits(),
        network_rx_bytes: 1,
        network_tx_bytes: 2,
        wifi_rssi: None,
        wifi_signal_dbm: Some(-40),
    };
    match convert_to_proto_upload(ServerMessage::Metrics(m), "e1".into()).unwrap().payload {
        Some(UploadPayload::Metrics(x)) => {
            assert_eq!(x.wifi_rssi, 0);
            assert_eq!(x.wifi_signal_dbm, -40);
            assert_eq!(x.uptime_seconds, 100);
        },
        _ => panic!("not metrics"),
    }
}

#[test]
fn messages_not_for_the_server_give_nothing() {
    let ack = SettingOk { metadata: meta(), network: "n".into(), handshake: true };
    assert!(convert_to_proto_upload(ServerMessage::FromServerSettingsAck(ack), "e1".into()).is_none());
}

#[test]
fn uplink_follows_the_server_state() {
    let s = initial_server_status();
    assert_eq!(s, ServerStatus::Connected);
    let hello = ServerMessage::HelloWorld(HelloWorld { metadata: meta(), hello: true });
    let (s, ups) = to_server_step(s, MessageServiceCommand::ToServer(hello.clone()), "e1".into(), 0);
    assert_eq!(ups.len(), 1);
    let (s, ups) = to_server_step(s, MessageServiceCommand::Internal(InternalEvent::ServerDisconnected), "e1".into(), 0);
    assert_eq!(s, ServerStatus::Disconnected);
    assert!(ups.is_empty());
    let (s, ups) = to_server_step(s, MessageServiceCommand::ToServer(hello), "e1".into(), 0);
    assert!(ups.is_empty());
    let (s, ups) = to_server_step(s, MessageServiceCommand::GenerateHelloWorld, "e1".into(), 1234);
    assert_eq!(s, ServerStatus::Disconnected);
    match &ups[0].payload {
        Some(UploadPayload::HelloWorld(h)) => {
            let md = h.metadata.clone().unwrap();
            assert_eq!(md.destination_id, "Server0");
            assert_eq!(md.sender_user_id, "e1");
            assert_eq!(md.timestamp, 1234);
            assert!(h.hello);
        },
        _ => panic!("not a greeting"),
    }
    let (s, _) = to_server_step(s, MessageServiceCommand::Internal(InternalEvent::ServerConnected), "e1".into(), 0);
    assert_eq!(s, ServerStatus::Connected);
}

#[test]
fn batches_upload_every_row_in_order() {
    let mut b = TableDataVector::new();
    b.measurement.push(Measurement { metadata: meta(), ..Default::default() });
    b.measurement.push(Measurement { metadata: meta(), sample: 2, ..Default::default() });
    b.alert_th.push(AlertTh { metadata: meta(), ..Default::default() });
    let ups: Vec<FromEdge> = process_batch(&b, &"e1".to_string());
    assert_eq!(ups.len(), 3);
    assert!(matches!(ups[1].payload, Some(UploadPayload::Measurement(ref m)) if m.sample == 2));
    assert!(matches!(ups[2].payload, Some(UploadPayload::AlertTh(_))));
    let (_, none) = to_server_step(ServerStatus::Disconnected, MessageServiceCommand::Batch(b.clone()), "e1".into(), 0);
    assert!(none.is_empty());
    let (_, all) = to_server_step(ServerStatus::Connected, MessageServiceCommand::Batch(b), "e1".into(), 0);
    assert_eq!(all, ups);
}

#[test]
fn server_records_become_messages() {
    assert_eq!(extract_metadata(None), Metadata { sender_user_id: String::new(), destination_id: String::new(), timestamp: 0 });
    assert_eq!(extract_metadata(Some(meta_msg())).timestamp, 9);
    let del = ToEdgeMsg { payload: Some(DownloadPayload::DeleteHub(DeleteHubMsg { metadata: Some(meta_msg()), network: "n1".into() })) };
    match from_server(del) {
        Some(ServerMessage::DeleteHub(d)) => {
            assert_eq!(d.network, "n1");
            assert_eq!(d.metadata.sender_user_id, "srv");
        },
        _ => panic!("not a removal"),
    }
    let hb = ToEdgeMsg { payload: Some(DownloadPayload::Heartbeat(HeartbeatMsg { metadata: None })) };
    assert!(matches!(from_server(hb), Some(ServerMessage::Heartbeat(h)) if h.beat));
    assert_eq!(from_server(ToEdgeMsg { payload: None }), None);
}

#[test]
fn settings_acknowledgements_go_to_the_hubs() {
    let ack = ToEdgeMsg { payload: Some(DownloadPayload::SettingOk(SettingOkMsg { metadata: Some(meta_msg()), network: "n".into(), handshake: true })) };
    assert!(matches!(handle_grpc_message(ack.clone()), Some(Downlink::ToHubs(ServerMessage::FromServerSettingsAck(_)))));
    let cmd = MessageServiceCommand::Internal(InternalEvent::IncomingGrpc(ack));
    assert!(matches!(from_server_step(cmd), Some(Downlink::ToHubs(_))));
    assert_eq!(from_server_step(MessageServiceCommand::GenerateHelloWorld), None);
}
