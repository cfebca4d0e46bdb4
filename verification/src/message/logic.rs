//! Routing decisions of the message service: which topic carries a message
//! to the hubs, where a message from a hub goes, and how the connection
//! states follow the connectivity events.

use vstd::prelude::*;
use crate::message::domain::{HubMessage, LocalStatus, ServerMessage, ServerStatus};
use crate::network::domain::{outbound_route, outbound_topic, NetworkManager};
use crate::system::domain::InternalEvent;

verus! {

/// The topic, QoS and retain flag of the messages that the balancing machine
/// sends on the edge's own control topics: handshakes, state notices (kept
/// by the broker) and heartbeats. Pings go by their network's topic.
pub open spec fn fsm_topic(
    handshake: (Seq<char>, u8),
    state: (Seq<char>, u8),
    heartbeat: (Seq<char>, u8),
    msg: HubMessage,
) -> Option<(Seq<char>, u8, bool)> {
    match msg {
        HubMessage::HandshakeToHub(_) => Some((handshake.0, handshake.1, false)),
        HubMessage::StateBalanceMode(_) | HubMessage::StateNormal(_) | HubMessage::StateSafeMode(_) => Some(
            (state.0, state.1, true),
        ),
        HubMessage::Heartbeat(_) => Some((heartbeat.0, heartbeat.1, false)),
        _ => None,
    }
}

/// The topic of a message to the hubs of the network it names, if that
/// network is registered.
pub open spec fn network_topic(m: NetworkManager, msg: HubMessage) -> Option<(Seq<char>, u8, bool)> {
    match outbound_route(msg) {
        Some(id) => if m.nets().contains_key(id) {
            Some((outbound_topic(m.nets()[id], msg).0, outbound_topic(m.nets()[id], msg).1, false))
        } else {
            None
        },
        None => None,
    }
}

/// The view of a topic triple.
pub open spec fn triple_view(t: Option<(String, u8, bool)>) -> Option<(Seq<char>, u8, bool)> {
    match t {
        Some((s, q, r)) => Some((s@, q, r)),
        None => None,
    }
}

/// Where a message of the balancing machine is published: its control topic,
/// or for a ping the topic of its network.
pub fn resolve_fsm_topic(manager: &NetworkManager, msg: &HubMessage) -> (r: Option<(String, u8, bool)>)
    requires
        manager.wf(),
    ensures
        triple_view(r) == match *msg {
            HubMessage::Ping(_) => network_topic(*manager, *msg),
            _ => fsm_topic(manager.handshake_topic(), manager.state_topic(), manager.heartbeat_topic(), *msg),
        },
{
    match msg {
        HubMessage::HandshakeToHub(_) => {
            let (h, _, _) = manager.control_topics();
            Some((h.topic, h.qos, false))
        },
        HubMessage::StateBalanceMode(_) | HubMessage::StateNormal(_) | HubMessage::StateSafeMode(_) => {
            let (_, s, _) = manager.control_topics();
            Some((s.topic, s.qos, true))
        },
        HubMessage::Heartbeat(_) => {
            let (_, _, b) = manager.control_topics();
            Some((b.topic, b.qos, false))
        },
        HubMessage::Ping(_) => {
            match manager.get_topic_to_send_msg_to_hub(msg) {
                Some(t) => Some((t.topic, t.qos, false)),
                None => None,
            }
        },
        _ => None,
    }
}

/// Where a message to the hubs is published, or `None` when it is dropped:
/// nothing goes out while the broker is disconnected; otherwise the control
/// topic of the balancing machine, else the topic of the message's network.
pub open spec fn hub_destination(m: NetworkManager, msg: HubMessage, local: LocalStatus) -> Option<
    (Seq<char>, u8, bool),
> {
    if local == LocalStatus::Disconnected {
        None
    } else {
        let f = match msg {
            HubMessage::Ping(_) => network_topic(m, msg),
            _ => fsm_topic(m.handshake_topic(), m.state_topic(), m.heartbeat_topic(), msg),
        };
        if f is Some {
            f
        } else {
            network_topic(m, msg)
        }
    }
}

/// Decides where a message to the hubs is published.
pub fn hub_topic(manager: &NetworkManager, msg: &HubMessage, local: LocalStatus) -> (r: Option<(String, u8, bool)>)
    requires
        manager.wf(),
    ensures
        triple_view(r) == hub_destination(*manager, *msg, local),
{
    if local == LocalStatus::Disconnected {
        return None;
    }
    match resolve_fsm_topic(manager, msg) {
        Some(t) => Some(t),
        None => match manager.get_topic_to_send_msg_to_hub(msg) {
            Some(t) => Some((t.topic, t.qos, false)),
            None => None,
        },
    }
}

/// Where a decoded message from a hub goes.
#[derive(Debug, Clone, PartialEq, Eq)]
pub enum HubUplink {
    /// Straight to the server.
    ToServer(ServerMessage),
    /// To the core, which hands it to storage or the balancing machine.
    ToCore(HubMessage),
    Drop,
}

/// The rule for messages from the hubs: while the server is connected,
/// readings, health reports, alerts and configuration go straight to it and
/// the rest is dropped; while it is disconnected, everything goes to the core.
pub open spec fn uplink_rule(status: ServerStatus, msg: HubMessage) -> HubUplink {
    if status == ServerStatus::Connected {
        match msg {
            HubMessage::Report(m) => HubUplink::ToServer(ServerMessage::Report(m)),
            HubMessage::Monitor(m) => HubUplink::ToServer(ServerMessage::Monitor(m)),
            HubMessage::AlertAir(m) => HubUplink::ToServer(ServerMessage::AlertAir(m)),
            HubMessage::AlertTem(m) => HubUplink::ToServer(ServerMessage::AlertTem(m)),
            HubMessage::FromHubSettings(s) => HubUplink::ToServer(ServerMessage::FromHubSettings(s)),
            HubMessage::FromHubSettingsAck(a) => HubUplink::ToServer(ServerMessage::FromHubSettingsAck(a)),
            _ => HubUplink::Drop,
        }
    } else {
        HubUplink::ToCore(msg)
    }
}

/// Decides where a decoded message from a hub goes.
pub fn route_from_hub(status: ServerStatus, msg: HubMessage) -> (r: HubUplink)
    ensures
        r == uplink_rule(status, msg),
{
    match status {
        ServerStatus::Connected => match msg {
            HubMessage::Report(m) => HubUplink::ToServer(ServerMessage::Report(m)),
            HubMessage::Monitor(m) => HubUplink::ToServer(ServerMessage::Monitor(m)),
            HubMessage::AlertAir(m) => HubUplink::ToServer(ServerMessage::AlertAir(m)),
            HubMessage::AlertTem(m) => HubUplink::ToServer(ServerMessage::AlertTem(m)),
            HubMessage::FromHubSettings(s) => HubUplink::ToServer(ServerMessage::FromHubSettings(s)),
            HubMessage::FromHubSettingsAck(a) => HubUplink::ToServer(ServerMessage::FromHubSettingsAck(a)),
            _ => HubUplink::Drop,
        },
        ServerStatus::Disconnected => HubUplink::ToCore(msg),
    }
}

/// Nothing is published while the broker is disconnected. Otherwise the
/// balancing machine's handshakes go on the handshake topic, its state notices
/// on the state topic (kept by the broker), its heartbeats on the heartbeat
/// topic, and a message naming a registered network on that network's topic
/// for the message's kind, not kept; a message naming an unknown network is
/// not published.
pub proof fn law_hub_destination(m: NetworkManager, msg: HubMessage, local: LocalStatus)
    ensures
        local == LocalStatus::Disconnected ==> hub_destination(m, msg, local) is None,
        local == LocalStatus::Connected ==> {
            &&& msg is HandshakeToHub ==> hub_destination(m, msg, local) == Some(
                (m.handshake_topic().0, m.handshake_topic().1, false),
            )
            &&& (msg is StateBalanceMode || msg is StateNormal || msg is StateSafeMode) ==> hub_destination(
                m,
                msg,
                local,
            ) == Some((m.state_topic().0, m.state_topic().1, true))
            &&& msg is Heartbeat ==> hub_destination(m, msg, local) == Some(
                (m.heartbeat_topic().0, m.heartbeat_topic().1, false),
            )
            &&& msg matches HubMessage::UpdateFirmware(u) ==> hub_destination(m, msg, local) == if m.nets().contains_key(
                u.network@,
            ) {
                Some(
                    (
                        m.nets()[u.network@].topic_new_firmware@.0,
                        m.nets()[u.network@].topic_new_firmware@.1,
                        false,
                    ),
                )
            } else {
                None
            }
            &&& msg matches HubMessage::FromServerSettings(u) ==> hub_destination(m, msg, local)
                == if m.nets().contains_key(u.network@) {
                Some(
                    (
                        m.nets()[u.network@].topic_new_setting@.0,
                        m.nets()[u.network@].topic_new_setting@.1,
                        false,
                    ),
                )
            } else {
                None
            }
            &&& msg matches HubMessage::FromServerSettingsAck(u) ==> hub_destination(m, msg, local)
                == if m.nets().contains_key(u.network@) {
                Some(
                    (m.nets()[u.network@].topic_setting_ok@.0, m.nets()[u.network@].topic_setting_ok@.1, false),
                )
            } else {
                None
            }
            &&& msg matches HubMessage::DeleteHub(u) ==> hub_destination(m, msg, local) == if m.nets().contains_key(
                u.network@,
            ) {
                Some(
                    (m.nets()[u.network@].topic_delete_hub@.0, m.nets()[u.network@].topic_delete_hub@.1, false),
                )
            } else {
                None
            }
            &&& msg matches HubMessage::ActiveHub(u) ==> hub_destination(m, msg, local) == if m.nets().contains_key(
                u.network@,
            ) {
                Some(
                    (m.nets()[u.network@].topic_active_hub@.0, m.nets()[u.network@].topic_active_hub@.1, false),
                )
            } else {
                None
            }
            &&& msg matches HubMessage::PingToHub(u) ==> hub_destination(m, msg, local) == if m.nets().contains_key(
                u.network@,
            ) {
                Some((m.nets()[u.network@].topic_ping_ack@.0, m.nets()[u.network@].topic_ping_ack@.1, false))
            } else {
                None
            }
        },
{
}

/// While the server is connected, every reading, health report, alert and
/// hub configuration message goes to the server as the message of the same
/// kind carrying the same record, and nothing else is sent; while it is
/// disconnected, every message goes to the core unchanged.
pub proof fn law_uplink_forwards_records(m: HubMessage)
    ensures
        m matches HubMessage::Report(x) ==> uplink_rule(ServerStatus::Connected, m) == HubUplink::ToServer(
            ServerMessage::Report(x),
        ),
        m matches HubMessage::Monitor(x) ==> uplink_rule(ServerStatus::Connected, m) == HubUplink::ToServer(
            ServerMessage::Monitor(x),
        ),
        m matches HubMessage::AlertAir(x) ==> uplink_rule(ServerStatus::Connected, m) == HubUplink::ToServer(
            ServerMessage::AlertAir(x),
        ),
        m matches HubMessage::AlertTem(x) ==> uplink_rule(ServerStatus::Connected, m) == HubUplink::ToServer(
            ServerMessage::AlertTem(x),
        ),
        m matches HubMessage::FromHubSettings(x) ==> uplink_rule(ServerStatus::Connected, m) == HubUplink::ToServer(
            ServerMessage::FromHubSettings(x),
        ),
        m matches HubMessage::FromHubSettingsAck(x) ==> uplink_rule(ServerStatus::Connected, m)
            == HubUplink::ToServer(ServerMessage::FromHubSettingsAck(x)),
        !(m is Report || m is Monitor || m is AlertAir || m is AlertTem || m is FromHubSettings
            || m is FromHubSettingsAck) ==> uplink_rule(ServerStatus::Connected, m) == HubUplink::Drop,
        uplink_rule(ServerStatus::Disconnected, m) == HubUplink::ToCore(m),
{
}

/// The server's state after a connectivity event.
pub open spec fn server_after(s: ServerStatus, e: InternalEvent) -> ServerStatus {
    match e {
        InternalEvent::ServerConnected => ServerStatus::Connected,
        InternalEvent::ServerDisconnected => ServerStatus::Disconnected,
        _ => s,
    }
}

/// The broker's state after a connectivity event.
pub open spec fn local_after(s: LocalStatus, e: InternalEvent) -> LocalStatus {
    match e {
        InternalEvent::LocalConnected => LocalStatus::Connected,
        InternalEvent::LocalDisconnected => LocalStatus::Disconnected,
        _ => s,
    }
}

/// Follows the server's connection state.
pub fn update_server_status(s: ServerStatus, e: &InternalEvent) -> (r: ServerStatus)
    ensures
        r == server_after(s, *e),
{
    match e {
        InternalEvent::ServerConnected => ServerStatus::Connected,
        InternalEvent::ServerDisconnected => ServerStatus::Disconnected,
        _ => s,
    }
}

/// Follows the broker's connection state.
pub fn update_local_status(s: LocalStatus, e: &InternalEvent) -> (r: LocalStatus)
    ensures
        r == local_after(s, *e),
{
    match e {
        InternalEvent::LocalConnected => LocalStatus::Connected,
        InternalEvent::LocalDisconnected => LocalStatus::Disconnected,
        _ => s,
    }
}

} // verus!
