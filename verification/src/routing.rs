//! The core's switchboard: which service receives each answer of another
//! service. Messages are passed on unchanged, except the server's settings
//! acknowledgement, which is relayed to the hubs as a hub acknowledgement.

use vstd::prelude::*;
use crate::database::domain::{DataServiceCommand, DataServiceResponse};
use crate::firmware::domain::{FirmwareServiceCommand, FirmwareServiceResponse};
use crate::fsm::domain::{FsmServiceCommand, FsmServiceResponse};
use crate::message::domain::{
    HubMessage, MessageServiceCommand, MessageServiceResponse, SerializedMessage, ServerMessage,
};
use crate::network::domain::{NetworkServiceCommand, NetworkServiceResponse};
use crate::message::upload::FromEdge;
use crate::system::domain::InternalEvent;

verus! {

/// The service that receives a message, with what it receives.
#[derive(Debug, Clone, PartialEq)]
pub enum CoreRoute {
    ToData(DataServiceCommand),
    ToFirmware(FirmwareServiceCommand),
    ToFsm(FsmServiceCommand),
    ToNetwork(NetworkServiceCommand),
    ToMessage(MessageServiceCommand),
    ToHeartbeat(ServerMessage),
    ToMqtt(SerializedMessage),
    ToGrpc(FromEdge),
    Drop,
}

/// Where a message from the hubs goes: readings, health reports, alerts and
/// configuration to storage, firmware results to the firmware service, balancing traffic to
/// the state machine.
pub open spec fn hub_rule(msg: HubMessage) -> CoreRoute {
    match msg {
        HubMessage::Report(_) | HubMessage::Monitor(_) | HubMessage::AlertAir(_) | HubMessage::AlertTem(_)
        | HubMessage::FromHubSettings(_) | HubMessage::FromHubSettingsAck(_) => CoreRoute::ToData(
            DataServiceCommand::Hub(msg),
        ),
        HubMessage::FirmwareOk(f) => CoreRoute::ToFirmware(FirmwareServiceCommand::HubResponse(f)),
        HubMessage::HandshakeFromHub(_) | HubMessage::EmptyQueue(_) | HubMessage::EmptyQueueSafe(_)
        | HubMessage::Ping(_) => CoreRoute::ToFsm(FsmServiceCommand::FromHub(msg)),
        _ => CoreRoute::Drop,
    }
}

/// Routes a message from the hubs.
pub fn route_hub_message(msg: HubMessage) -> (r: CoreRoute)
    ensures
        r == hub_rule(msg),
{
    match msg {
        HubMessage::Report(_) | HubMessage::Monitor(_) | HubMessage::AlertAir(_) | HubMessage::AlertTem(_)
        | HubMessage::FromHubSettings(_) | HubMessage::FromHubSettingsAck(_) => CoreRoute::ToData(
            DataServiceCommand::Hub(msg),
        ),
        HubMessage::FirmwareOk(f) => CoreRoute::ToFirmware(FirmwareServiceCommand::HubResponse(f)),
        HubMessage::HandshakeFromHub(_) | HubMessage::EmptyQueue(_) | HubMessage::EmptyQueueSafe(_)
        | HubMessage::Ping(_) => CoreRoute::ToFsm(FsmServiceCommand::FromHub(msg)),
        _ => CoreRoute::Drop,
    }
}

/// Where a message from the server goes: firmware orders to the firmware
/// service, network and hub administration to the network service, the
/// settings acknowledgement back to the hubs, heartbeats to the heartbeat
/// service and the hello to the state machine.
pub open spec fn server_rule(msg: ServerMessage) -> CoreRoute {
    match msg {
        ServerMessage::UpdateFirmware(u) => CoreRoute::ToFirmware(FirmwareServiceCommand::Update(u)),
        ServerMessage::DeleteHub(_) | ServerMessage::FromServerSettings(_) | ServerMessage::Network(_) => CoreRoute::ToNetwork(
            NetworkServiceCommand::ServerMessage(msg),
        ),
        ServerMessage::FromServerSettingsAck(a) => CoreRoute::ToMessage(
            MessageServiceCommand::ToHub(HubMessage::FromHubSettingsAck(a)),
        ),
        ServerMessage::Heartbeat(_) => CoreRoute::ToHeartbeat(msg),
        ServerMessage::HelloWorld(_) => CoreRoute::ToFsm(FsmServiceCommand::FromServer(msg)),
        _ => CoreRoute::Drop,
    }
}

/// Routes a message from the server.
pub fn route_server_message(msg: ServerMessage) -> (r: CoreRoute)
    ensures
        r == server_rule(msg),
{
    match msg {
        ServerMessage::UpdateFirmware(u) => CoreRoute::ToFirmware(FirmwareServiceCommand::Update(u)),
        ServerMessage::DeleteHub(_) | ServerMessage::FromServerSettings(_) | ServerMessage::Network(_) => CoreRoute::ToNetwork(
            NetworkServiceCommand::ServerMessage(msg),
        ),
        ServerMessage::FromServerSettingsAck(a) => CoreRoute::ToMessage(
            MessageServiceCommand::ToHub(HubMessage::FromHubSettingsAck(a)),
        ),
        ServerMessage::Heartbeat(_) => CoreRoute::ToHeartbeat(msg),
        ServerMessage::HelloWorld(_) => CoreRoute::ToFsm(FsmServiceCommand::FromServer(msg)),
        _ => CoreRoute::Drop,
    }
}

/// Where an answer of the state machine goes: messages to the message
/// service, epoch requests and new epochs to storage.
pub open spec fn fsm_rule(r: FsmServiceResponse) -> CoreRoute {
    match r {
        FsmServiceResponse::ToServer(m) => CoreRoute::ToMessage(MessageServiceCommand::ToServer(m)),
        FsmServiceResponse::ToHub(m) => CoreRoute::ToMessage(MessageServiceCommand::ToHub(m)),
        FsmServiceResponse::NewEpoch(e) => CoreRoute::ToData(DataServiceCommand::NewEpoch(e)),
        FsmServiceResponse::GetEpoch => CoreRoute::ToData(DataServiceCommand::GetEpoch),
    }
}

/// Routes an answer of the state machine.
pub fn route_fsm_response(r: FsmServiceResponse) -> (c: CoreRoute)
    ensures
        c == fsm_rule(r),
{
    match r {
        FsmServiceResponse::ToServer(m) => CoreRoute::ToMessage(MessageServiceCommand::ToServer(m)),
        FsmServiceResponse::ToHub(m) => CoreRoute::ToMessage(MessageServiceCommand::ToHub(m)),
        FsmServiceResponse::NewEpoch(e) => CoreRoute::ToData(DataServiceCommand::NewEpoch(e)),
        FsmServiceResponse::GetEpoch => CoreRoute::ToData(DataServiceCommand::GetEpoch),
    }
}

/// Where an answer of storage goes: stored telemetry to the message service,
/// the stored epoch (or its absence) to the state machine; the other answers
/// are not routed by the core.
pub open spec fn data_rule(r: DataServiceResponse) -> CoreRoute {
    match r {
        DataServiceResponse::Batch(b) => CoreRoute::ToMessage(MessageServiceCommand::Batch(b)),
        DataServiceResponse::Epoch(e) => CoreRoute::ToFsm(FsmServiceCommand::Epoch(e)),
        DataServiceResponse::ErrorEpoch => CoreRoute::ToFsm(FsmServiceCommand::ErrorEpoch),
        _ => CoreRoute::Drop,
    }
}

/// Routes an answer of storage.
pub fn route_data_response(r: DataServiceResponse) -> (c: CoreRoute)
    ensures
        c == data_rule(r),
{
    match r {
        DataServiceResponse::Batch(b) => CoreRoute::ToMessage(MessageServiceCommand::Batch(b)),
        DataServiceResponse::Epoch(e) => CoreRoute::ToFsm(FsmServiceCommand::Epoch(e)),
        DataServiceResponse::ErrorEpoch => CoreRoute::ToFsm(FsmServiceCommand::ErrorEpoch),
        _ => CoreRoute::Drop,
    }
}

/// Where an answer of the firmware service goes: both kinds to the message
/// service, for the server or for the hubs.
pub open spec fn firmware_rule(r: FirmwareServiceResponse) -> CoreRoute {
    match r {
        FirmwareServiceResponse::ServerAck(m) => CoreRoute::ToMessage(MessageServiceCommand::ToServer(m)),
        FirmwareServiceResponse::HubCommand(m) => CoreRoute::ToMessage(MessageServiceCommand::ToHub(m)),
    }
}

/// Routes an answer of the firmware service.
pub fn route_firmware_response(r: FirmwareServiceResponse) -> (c: CoreRoute)
    ensures
        c == firmware_rule(r),
{
    match r {
        FirmwareServiceResponse::ServerAck(m) => CoreRoute::ToMessage(MessageServiceCommand::ToServer(m)),
        FirmwareServiceResponse::HubCommand(m) => CoreRoute::ToMessage(MessageServiceCommand::ToHub(m)),
    }
}

/// Where an answer of the network service goes: messages to the hubs, and the
/// storage commands that change networks or hubs; the rest is dropped.
pub open spec fn network_rule(r: NetworkServiceResponse) -> CoreRoute {
    match r {
        NetworkServiceResponse::HubMessage(m) => CoreRoute::ToMessage(MessageServiceCommand::ToHub(m)),
        NetworkServiceResponse::DataCommand(c) => match c {
            DataServiceCommand::DeleteNetwork(_) | DataServiceCommand::DeleteAllHubByNetwork(_)
            | DataServiceCommand::UpdateNetwork(_) | DataServiceCommand::NewNetwork(_) | DataServiceCommand::NewHub(_)
            | DataServiceCommand::DeleteHub(_) | DataServiceCommand::UpdateHub(_) => CoreRoute::ToData(c),
            _ => CoreRoute::Drop,
        },
        NetworkServiceResponse::NetworksReady => CoreRoute::Drop,
    }
}

/// Routes an answer of the network service.
pub fn route_network_response(r: NetworkServiceResponse) -> (c: CoreRoute)
    ensures
        c == network_rule(r),
{
    match r {
        NetworkServiceResponse::HubMessage(m) => CoreRoute::ToMessage(MessageServiceCommand::ToHub(m)),
        NetworkServiceResponse::DataCommand(c) => match c {
            DataServiceCommand::DeleteNetwork(_) | DataServiceCommand::DeleteAllHubByNetwork(_)
            | DataServiceCommand::UpdateNetwork(_) | DataServiceCommand::NewNetwork(_) | DataServiceCommand::NewHub(_)
            | DataServiceCommand::DeleteHub(_) | DataServiceCommand::UpdateHub(_) => CoreRoute::ToData(c),
            _ => CoreRoute::Drop,
        },
        NetworkServiceResponse::NetworksReady => CoreRoute::Drop,
    }
}

/// Where an answer of the message service goes: a decoded message of the hubs
/// or of the server is routed as such, an encoded message goes to the local
/// broker unchanged, and an upload to the server's link unchanged.
pub open spec fn message_rule(r: MessageServiceResponse) -> CoreRoute {
    match r {
        MessageServiceResponse::FromHub(m) => hub_rule(m),
        MessageServiceResponse::FromServer(m) => server_rule(m),
        MessageServiceResponse::Serialized(m) => CoreRoute::ToMqtt(m),
        MessageServiceResponse::EdgeUpload(u) => CoreRoute::ToGrpc(u),
    }
}

/// Routes an answer of the message service.
pub fn route_message_response(r: MessageServiceResponse) -> (c: CoreRoute)
    ensures
        c == message_rule(r),
{
    match r {
        MessageServiceResponse::FromHub(m) => route_hub_message(m),
        MessageServiceResponse::FromServer(m) => route_server_message(m),
        MessageServiceResponse::Serialized(m) => CoreRoute::ToMqtt(m),
        MessageServiceResponse::EdgeUpload(u) => CoreRoute::ToGrpc(u),
    }
}

/// A connectivity event of the heartbeat service goes both to the message
/// service and to storage: storage receives the event itself, the message
/// service a copy carrying the same payload and topic.
pub fn route_heartbeat_event(ev: InternalEvent) -> (r: (MessageServiceCommand, DataServiceCommand))
    ensures
        r.0 matches MessageServiceCommand::Internal(c) && c@ == ev@,
        r.1 == DataServiceCommand::Internal(ev),
{
    let copy = ev.duplicate();
    (MessageServiceCommand::Internal(copy), DataServiceCommand::Internal(ev))
}

/// A connectivity event of the gRPC link or of the local MQTT link goes to the
/// message service unchanged.
pub fn route_link_event(ev: InternalEvent) -> (c: MessageServiceCommand)
    ensures
        c == MessageServiceCommand::Internal(ev),
{
    MessageServiceCommand::Internal(ev)
}

/// A report of the metrics service goes to the message service, for the server.
pub fn route_metrics_message(m: ServerMessage) -> (c: MessageServiceCommand)
    ensures
        c == MessageServiceCommand::ToServer(m),
{
    MessageServiceCommand::ToServer(m)
}

/// Every balancing message of a hub (handshake answer, empty-queue report in
/// a phase or in safe mode, ping) reaches the state machine service unchanged.
pub proof fn law_balancing_messages_reach_fsm(m: HubMessage)
    requires
        m is HandshakeFromHub || m is EmptyQueue || m is EmptyQueueSafe || m is Ping,
    ensures
        hub_rule(m) == CoreRoute::ToFsm(FsmServiceCommand::FromHub(m)),
{
}

/// Every record a hub reports (reading, health report, air or temperature
/// alert, its settings or their acknowledgement) reaches storage unchanged,
/// and a hub's firmware answer reaches the firmware service.
pub proof fn law_hub_records_reach_storage(m: HubMessage)
    ensures
        (m is Report || m is Monitor || m is AlertAir || m is AlertTem || m is FromHubSettings
            || m is FromHubSettingsAck) ==> hub_rule(m) == CoreRoute::ToData(DataServiceCommand::Hub(m)),
        m matches HubMessage::FirmwareOk(f) ==> hub_rule(m) == CoreRoute::ToFirmware(
            FirmwareServiceCommand::HubResponse(f),
        ),
{
}

/// Messages meant for the hubs are never routed back when they arrive as if
/// from a hub.
pub proof fn law_outbound_kinds_dropped(m: HubMessage)
    requires
        m is HandshakeToHub || m is Heartbeat || m is PhaseNotification || m is StateBalanceMode || m is StateNormal
            || m is StateSafeMode || m is UpdateFirmware || m is DeleteHub || m is ActiveHub
            || m is FromServerSettings || m is FromServerSettingsAck || m is PingToHub,
    ensures
        hub_rule(m) == CoreRoute::Drop,
{
}

/// Each message of the server reaches the service that acts on it: firmware
/// orders the firmware service, hub removal, settings and networks the network
/// service, heartbeats the heartbeat service and the greeting's answer the
/// state machine, each unchanged; a settings acknowledgement goes on to the
/// hubs as the acknowledgement of a hub's settings.
pub proof fn law_server_messages_reach_their_service(m: ServerMessage)
    ensures
        m matches ServerMessage::UpdateFirmware(u) ==> server_rule(m) == CoreRoute::ToFirmware(
            FirmwareServiceCommand::Update(u),
        ),
        (m is DeleteHub || m is FromServerSettings || m is Network) ==> server_rule(m) == CoreRoute::ToNetwork(
            NetworkServiceCommand::ServerMessage(m),
        ),
        m matches ServerMessage::FromServerSettingsAck(a) ==> server_rule(m) == CoreRoute::ToMessage(
            MessageServiceCommand::ToHub(HubMessage::FromHubSettingsAck(a)),
        ),
        m is Heartbeat ==> server_rule(m) == CoreRoute::ToHeartbeat(m),
        m is HelloWorld ==> server_rule(m) == CoreRoute::ToFsm(FsmServiceCommand::FromServer(m)),
        (m is FromHubSettings || m is FromHubSettingsAck || m is Report || m is Monitor || m is AlertAir
            || m is AlertTem || m is FirmwareOutcome || m is Metrics) ==> server_rule(m) == CoreRoute::Drop,
{
}

/// The answers of the state machine, storage and the firmware service reach
/// their destination unchanged: messages the message service, epoch requests
/// and new epochs storage, stored epochs (or their absence) the state machine,
/// stored telemetry the message service.
pub proof fn law_service_answers_reach_their_destination(
    f: FsmServiceResponse,
    d: DataServiceResponse,
    w: FirmwareServiceResponse,
)
    ensures
        f matches FsmServiceResponse::ToServer(m) ==> fsm_rule(f) == CoreRoute::ToMessage(
            MessageServiceCommand::ToServer(m),
        ),
        f matches FsmServiceResponse::ToHub(m) ==> fsm_rule(f) == CoreRoute::ToMessage(MessageServiceCommand::ToHub(m)),
        f matches FsmServiceResponse::NewEpoch(e) ==> fsm_rule(f) == CoreRoute::ToData(DataServiceCommand::NewEpoch(e)),
        f is GetEpoch ==> fsm_rule(f) == CoreRoute::ToData(DataServiceCommand::GetEpoch),
        d matches DataServiceResponse::Epoch(e) ==> data_rule(d) == CoreRoute::ToFsm(FsmServiceCommand::Epoch(e)),
        d is ErrorEpoch ==> data_rule(d) == CoreRoute::ToFsm(FsmServiceCommand::ErrorEpoch),
        d matches DataServiceResponse::Batch(b) ==> data_rule(d) == CoreRoute::ToMessage(
            MessageServiceCommand::Batch(b),
        ),
        w matches FirmwareServiceResponse::ServerAck(m) ==> firmware_rule(w) == CoreRoute::ToMessage(
            MessageServiceCommand::ToServer(m),
        ),
        w matches FirmwareServiceResponse::HubCommand(m) ==> firmware_rule(w) == CoreRoute::ToMessage(
            MessageServiceCommand::ToHub(m),
        ),
{
}

/// A decoded message of the message service is routed exactly as the same
/// message arriving directly; encoded messages go to the broker and uploads
/// to the server's link, unchanged.
pub proof fn law_message_answers_route_like_direct(r: MessageServiceResponse)
    ensures
        r matches MessageServiceResponse::FromHub(m) ==> message_rule(r) == hub_rule(m),
        r matches MessageServiceResponse::FromServer(m) ==> message_rule(r) == server_rule(m),
        r matches MessageServiceResponse::Serialized(x) ==> message_rule(r) == CoreRoute::ToMqtt(x),
        r matches MessageServiceResponse::EdgeUpload(u) ==> message_rule(r) == CoreRoute::ToGrpc(u),
{
}

/// Answers of the network service: messages reach the hubs, and the storage
/// commands that change networks or hubs reach storage, unchanged.
pub proof fn law_network_answers_reach_their_destination(r: NetworkServiceResponse)
    ensures
        r matches NetworkServiceResponse::HubMessage(m) ==> network_rule(r) == CoreRoute::ToMessage(
            MessageServiceCommand::ToHub(m),
        ),
        r matches NetworkServiceResponse::DataCommand(c) ==> ((c is DeleteNetwork || c is DeleteAllHubByNetwork
            || c is UpdateNetwork || c is NewNetwork || c is NewHub || c is DeleteHub || c is UpdateHub)
            ==> network_rule(r) == CoreRoute::ToData(c)),
        r is NetworksReady ==> network_rule(r) == CoreRoute::Drop,
{
}

} // verus!
