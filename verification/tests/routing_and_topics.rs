use iot_edge::database::batch::TableDataVector;
use iot_edge::message::domain::{AlertAir, Measurement};
use iot_edge::database::domain::{
    dispatch_data_command, DataCommandDelete, DataCommandGet, DataCommandInsert, DataDispatch, DataServiceCommand,
    DataServiceResponse,
};
use iot_edge::firmware::domain::{FirmwareServiceCommand, FirmwareServiceResponse};
use iot_edge::fsm::domain::{FsmServiceCommand, FsmServiceResponse};
use iot_edge::message::domain::{
    EmptyQueue, FirmwareOk, Heartbeat, HubMessage, LocalStatus, MessageServiceCommand, MessageServiceResponse,
    MessageStateNormal, Metadata, Ping, SerializedMessage, ServerMessage, ServerStatus, SettingOk, UpdateFirmware,
};
use iot_edge::message::logic::{
    hub_topic, resolve_fsm_topic, route_from_hub, update_local_status, update_server_status, HubUplink,
};
use iot_edge::mqtt::domain::{cast_qos, collect_subscriptions, PayloadTopic, QoS};
use iot_edge::network::domain::{Network, NetworkManager, NetworkRow, NetworkServiceResponse};
use iot_edge::routing::{
    route_data_response, route_firmware_response, route_fsm_response, route_heartbeat_event, route_hub_message,
    route_link_event, route_message_response, route_metrics_message, route_network_response, route_server_message,
    CoreRoute,
};
use iot_edge::system::domain::{InternalEvent, System};
use iot_edge::mqtt::domain::{client_step, ClientInput, ClientStep, StateClient};
use iot_edge::grpc_service::domain::{link_step, LinkInput, LinkOutput, LinkState};

fn meta() -> Metadata {
    Metadata { sender_user_id: "hub1".into(), destination_id: "edge".into(), timestamp: 3 }
}

fn manager() -> NetworkManager {
    let sys = System {
        id_edge: "edge7".into(),
        host_server: "h".into(),
        host_port: "p".into(),
        host_local: "l".into(),
        cn: "c".into(),
        db_path: "d".into(),
        buffer_size: 1,
    };
    let mut m = NetworkManager::new_empty(&sys);
    m.add_network(Network::new("net1".into(), true));
    m
}

#[test]
fn hub_messages_reach_their_service() {
    let ok = FirmwareOk { metadata: meta(), version: "1".into(), is_ok: true };
    assert_eq!(
        route_hub_message(HubMessage::FirmwareOk(ok.clone())),
        CoreRoute::ToFirmware(FirmwareServiceCommand::HubResponse(ok))
    );
    let e = HubMessage::EmptyQueue(EmptyQueue { metadata: meta(), queue_empty: true });
    assert_eq!(route_hub_message(e.clone()), CoreRoute::ToFsm(FsmServiceCommand::FromHub(e)));
    let ack = HubMessage::FromHubSettingsAck(SettingOk { metadata: meta(), network: "n".into(), handshake: true });
    assert_eq!(route_hub_message(ack.clone()), CoreRoute::ToData(DataServiceCommand::Hub(ack)));
    let hb = HubMessage::Heartbeat(Heartbeat { metadata: meta(), beat: true });
    assert_eq!(route_hub_message(hb), CoreRoute::Drop);
}

#[test]
fn server_messages_reach_their_service() {
    let ack = SettingOk { metadata: meta(), network: "n".into(), handshake: true };
    assert_eq!(
        route_server_message(ServerMessage::FromServerSettingsAck(ack.clone())),
        CoreRoute::ToMessage(MessageServiceCommand::ToHub(HubMessage::FromHubSettingsAck(ack)))
    );
    let up = UpdateFirmware { metadata: meta(), network: "n".into(), version: "2".into(), url: "u".into(), sha256: "s".into() };
    assert_eq!(
        route_server_message(ServerMessage::UpdateFirmware(up.clone())),
        CoreRoute::ToFirmware(FirmwareServiceCommand::Update(up))
    );
    let hb = ServerMessage::Heartbeat(Heartbeat { metadata: meta(), beat: true });
    assert_eq!(route_server_message(hb.clone()), CoreRoute::ToHeartbeat(hb));
}

#[test]
fn service_answers_reach_their_service() {
    assert_eq!(route_fsm_response(FsmServiceResponse::NewEpoch(3)), CoreRoute::ToData(DataServiceCommand::NewEpoch(3)));
    assert_eq!(route_fsm_response(FsmServiceResponse::GetEpoch), CoreRoute::ToData(DataServiceCommand::GetEpoch));
    assert_eq!(route_data_response(DataServiceResponse::Epoch(9)), CoreRoute::ToFsm(FsmServiceCommand::Epoch(9)));
    assert_eq!(route_data_response(DataServiceResponse::ErrorEpoch), CoreRoute::ToFsm(FsmServiceCommand::ErrorEpoch));
    assert_eq!(route_data_response(DataServiceResponse::NoNetworks), CoreRoute::Drop);
    let hub = HubMessage::Heartbeat(Heartbeat { metadata: meta(), beat: true });
    assert_eq!(
        route_firmware_response(FirmwareServiceResponse::HubCommand(hub.clone())),
        CoreRoute::ToMessage(MessageServiceCommand::ToHub(hub))
    );
    let row = NetworkRow::new("n".into(), true);
    assert_eq!(
        route_network_response(NetworkServiceResponse::DataCommand(DataServiceCommand::NewNetwork(row.clone()))),
        CoreRoute::ToData(DataServiceCommand::NewNetwork(row))
    );
    assert_eq!(
        route_network_response(NetworkServiceResponse::DataCommand(DataServiceCommand::GetEpoch)),
        CoreRoute::Drop
    );
    assert_eq!(route_network_response(NetworkServiceResponse::NetworksReady), CoreRoute::Drop);
}

#[test]
fn storage_commands_reach_their_task() {
    assert_eq!(dispatch_data_command(DataServiceCommand::GetEpoch), DataDispatch::Get(DataCommandGet::GetEpoch));
    assert_eq!(
        dispatch_data_command(DataServiceCommand::DeleteHub("h".into())),
        DataDispatch::Delete(DataCommandDelete::DeleteHub("h".into()))
    );
    assert_eq!(
        dispatch_data_command(DataServiceCommand::NewEpoch(2)),
        DataDispatch::Insert(DataCommandInsert::NewEpoch(2))
    );
    assert_eq!(
        dispatch_data_command(DataServiceCommand::Internal(InternalEvent::ServerConnected)),
        DataDispatch::Internal(InternalEvent::ServerConnected)
    );
}

#[test]
fn topics_of_outgoing_messages() {
    let m = manager();
    let state = HubMessage::StateNormal(MessageStateNormal { metadata: meta(), state: "normal".into() });
    assert_eq!(resolve_fsm_topic(&m, &state), Some(("iot/edge7/state".to_string(), 1, true)));
    let hb = HubMessage::Heartbeat(Heartbeat { metadata: meta(), beat: true });
    assert_eq!(resolve_fsm_topic(&m, &hb), Some(("iot/edge7/heartbeat".to_string(), 0, false)));
    let ping = HubMessage::Ping(Ping { metadata: meta(), network: "net1".into(), ping: true });
    assert_eq!(resolve_fsm_topic(&m, &ping), None);
    let ack = HubMessage::FromServerSettingsAck(SettingOk { metadata: meta(), network: "net1".into(), handshake: true });
    assert_eq!(hub_topic(&m, &ack, LocalStatus::Connected), Some(("iot/net1/new_setting_ok".to_string(), 0, false)));
    assert_eq!(hub_topic(&m, &ack, LocalStatus::Disconnected), None);
    let unknown = HubMessage::FromServerSettingsAck(SettingOk { metadata: meta(), network: "zz".into(), handshake: true });
    assert_eq!(hub_topic(&m, &unknown, LocalStatus::Connected), None);
}

#[test]
fn uplink_depends_on_server_state() {
    let ack = SettingOk { metadata: meta(), network: "n".into(), handshake: true };
    assert_eq!(
        route_from_hub(ServerStatus::Connected, HubMessage::FromHubSettingsAck(ack.clone())),
        HubUplink::ToServer(ServerMessage::FromHubSettingsAck(ack))
    );
    let e = HubMessage::EmptyQueue(EmptyQueue { metadata: meta(), queue_empty: true });
    assert_eq!(route_from_hub(ServerStatus::Connected, e.clone()), HubUplink::Drop);
    assert_eq!(route_from_hub(ServerStatus::Disconnected, e.clone()), HubUplink::ToCore(e));
    assert_eq!(update_server_status(ServerStatus::Connected, &InternalEvent::ServerDisconnected), ServerStatus::Disconnected);
    assert_eq!(update_server_status(ServerStatus::Connected, &InternalEvent::LocalDisconnected), ServerStatus::Connected);
    assert_eq!(update_local_status(LocalStatus::Disconnected, &InternalEvent::LocalConnected), LocalStatus::Connected);
}

#[test]
fn subscriptions_of_each_network() {
    let m = manager();
    let subs = collect_subscriptions(&m);
    assert_eq!(subs.len(), 6);
    assert_eq!(subs[0], ("iot/net1/hub/+/data".to_string(), QoS::AtMostOnce));
    assert_eq!(subs[2], ("iot/net1/hub/+/alert_air".to_string(), QoS::AtLeastOnce));
    assert_eq!(subs[5], ("iot/net1/hub/+/balance_mode_handshake".to_string(), QoS::AtMostOnce));
    assert_eq!(cast_qos(&2), QoS::ExactlyOnce);
    assert_eq!(cast_qos(&9), QoS::AtMostOnce);
    let p = PayloadTopic::new(vec![1, 2], "t".into());
    assert_eq!(p.payload, vec![1, 2]);
}

#[test]
fn mqtt_client_cycle() {
    assert_eq!(client_step(StateClient::Init, ClientInput::Created, true), ClientStep { next: StateClient::Work, event: None });
    assert_eq!(
        client_step(StateClient::Init, ClientInput::CreateFailed, true),
        ClientStep { next: StateClient::Error, event: None }
    );
    let p = PayloadTopic::new(vec![9], "t".into());
    assert_eq!(
        client_step(StateClient::Work, ClientInput::Publish(p.clone()), true),
        ClientStep { next: StateClient::Work, event: Some(InternalEvent::IncomingMessage(p)) }
    );
    assert_eq!(
        client_step(StateClient::Work, ClientInput::Disconnect, true).event,
        Some(InternalEvent::LocalDisconnected)
    );
    assert_eq!(client_step(StateClient::Work, ClientInput::Disconnect, false).event, None);
    assert_eq!(
        client_step(StateClient::Work, ClientInput::PollFailed, false),
        ClientStep { next: StateClient::Error, event: Some(InternalEvent::LocalDisconnected) }
    );
    assert_eq!(client_step(StateClient::Error, ClientInput::Retry, true).next, StateClient::Init);
    assert_eq!(client_step(StateClient::Error, ClientInput::ConnAck, true).next, StateClient::Error);
}

#[test]
fn server_link_cycle() {
    assert_eq!(link_step(LinkState::Init, LinkInput::Connected), (LinkState::Work, LinkOutput::ServerConnected));
    assert_eq!(link_step(LinkState::Work, LinkInput::Received), (LinkState::Work, LinkOutput::Forward));
    assert_eq!(link_step(LinkState::Work, LinkInput::StreamEnded), (LinkState::Error, LinkOutput::ServerDisconnected));
    assert_eq!(link_step(LinkState::Error, LinkInput::Retry), (LinkState::Init, LinkOutput::Nothing));
    assert_eq!(link_step(LinkState::Init, LinkInput::ConnectFailed), (LinkState::Error, LinkOutput::ServerDisconnected));
    assert_eq!(link_step(LinkState::Work, LinkInput::OutboundClosed), (LinkState::Stopped, LinkOutput::Nothing));
    assert_eq!(link_step(LinkState::Error, LinkInput::Shutdown), (LinkState::Stopped, LinkOutput::Nothing));
    assert_eq!(link_step(LinkState::Stopped, LinkInput::Connected), (LinkState::Stopped, LinkOutput::Nothing));
}

#[test]
fn heartbeat_events_go_to_messages_and_storage() {
    let ev = InternalEvent::IncomingMessage(PayloadTopic::new(vec![1, 2, 3], "iot/a".into()));
    let (to_msg, to_data) = route_heartbeat_event(ev.clone());
    assert_eq!(to_msg, MessageServiceCommand::Internal(ev.clone()));
    assert_eq!(to_data, DataServiceCommand::Internal(ev));
    let (m, d) = route_heartbeat_event(InternalEvent::ServerConnected);
    assert_eq!(m, MessageServiceCommand::Internal(InternalEvent::ServerConnected));
    assert_eq!(d, DataServiceCommand::Internal(InternalEvent::ServerConnected));
}

#[test]
fn message_service_answers_are_routed() {
    let ser = SerializedMessage::new("iot/x/state".into(), vec![9, 8], 1, false);
    assert_eq!(route_message_response(MessageServiceResponse::Serialized(ser.clone())), CoreRoute::ToMqtt(ser));
    let ping = HubMessage::Ping(Ping { metadata: meta(), network: "n1".into(), ping: true });
    assert_eq!(
        route_message_response(MessageServiceResponse::FromHub(ping.clone())),
        CoreRoute::ToFsm(FsmServiceCommand::FromHub(ping))
    );
    let hb = ServerMessage::Heartbeat(Heartbeat { metadata: meta(), beat: true });
    assert_eq!(
        route_message_response(MessageServiceResponse::FromServer(hb.clone())),
        CoreRoute::ToHeartbeat(hb.clone())
    );
    assert_eq!(route_metrics_message(hb.clone()), MessageServiceCommand::ToServer(hb));
    assert_eq!(
        route_link_event(InternalEvent::LocalDisconnected),
        MessageServiceCommand::Internal(InternalEvent::LocalDisconnected)
    );
}

#[test]
fn stored_telemetry_goes_to_the_message_service() {
    let mut b = TableDataVector::new();
    b.alert_air.push(AlertAir { metadata: meta(), ..Default::default() });
    assert_eq!(
        route_data_response(DataServiceResponse::Batch(b.clone())),
        CoreRoute::ToMessage(MessageServiceCommand::Batch(b))
    );
    let r = HubMessage::Report(Measurement { metadata: meta(), co2_ppm: 412.0f32.to_bits(), ..Default::default() });
    assert_eq!(route_hub_message(r.clone()), CoreRoute::ToData(DataServiceCommand::Hub(r)));
}

#[test]
fn readings_and_alerts_go_to_the_server_when_connected() {
    let r = Measurement { metadata: meta(), temperature: 20.25f32.to_bits(), ..Default::default() };
    assert_eq!(
        route_from_hub(ServerStatus::Connected, HubMessage::Report(r.clone())),
        HubUplink::ToServer(ServerMessage::Report(r.clone()))
    );
    assert_eq!(
        route_from_hub(ServerStatus::Disconnected, HubMessage::Report(r.clone())),
        HubUplink::ToCore(HubMessage::Report(r))
    );
    let a = AlertAir { metadata: meta(), ..Default::default() };
    assert_eq!(
        route_from_hub(ServerStatus::Connected, HubMessage::AlertAir(a.clone())),
        HubUplink::ToServer(ServerMessage::AlertAir(a))
    );
}
