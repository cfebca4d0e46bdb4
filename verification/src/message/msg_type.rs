//! Wire records of the first message format: typed destinations and
//! timestamps carried as text.

use vstd::prelude::*;

verus! {

/// Kind of the party a message is addressed to.
#[derive(Debug, Clone, Copy, PartialEq, Eq, Structural, Default, Hash)]
pub enum DestinationType {
    #[default]
    Node,
    Edge,
    Server,
}

/// Routing data of a record.
#[derive(Debug, Clone, PartialEq, Eq, Default)]
pub struct Metadata {
    pub sender_user_id: String,
    pub destination_type: DestinationType,
    pub destination_id: String,
    pub timestamp: String,
}

/// Health telemetry of a hub.
#[derive(Debug, Clone, PartialEq, Eq, Default)]
pub struct Monitor {
    pub metadata: Metadata,
    pub mem_free: i64,
    pub mem_free_hm: i64,
    pub mem_free_block: i64,
    pub mem_free_internal: i64,
    pub stack_free_min_coll: i64,
    pub stack_free_min_pub: i64,
    pub stack_free_min_mic: i64,
    pub stack_free_min_th: i64,
    pub stack_free_min_air: i64,
    pub stack_free_min_mon: i64,
    pub wifi_ssid: String,
    pub wifi_rssi: i8,
    pub active_time: String,
}

/// A network with its topics.
#[derive(Debug, Clone, PartialEq, Eq)]
pub struct Network {
    pub metadata: Metadata,
    pub id_network: String,
    pub name_network: String,
    pub topic_data: String,
    pub topic_alert: String,
    pub topic_monitor: String,
    pub active: bool,
}

/// Configuration of a hub.
#[derive(Debug, Clone, PartialEq, Eq)]
pub struct Settings {
    pub metadata: Metadata,
    pub wifi_ssid: String,
    pub wifi_password: String,
    pub mqtt_uri: String,
    pub device_name: String,
    pub sample: u16,
    pub topic_data: String,
    pub topic_alert: String,
    pub topic_monitor: String,
    pub energy_mode: u8,
}

/// Messages from the server.
#[derive(Debug, Clone, PartialEq, Eq)]
pub enum MessageFromServer {
    Network(Network),
    Settings(Settings),
}

/// Handshake sent to a hub: the edge's state, the balancing epoch and the
/// answer window. The state is carried by its name.
#[derive(Debug, Clone, PartialEq, Eq)]
pub struct HandshakeToHub {
    pub metadata: Metadata,
    pub state: String,
    pub balance_epoch: u32,
    pub duration: u32,
}

/// Handshake answered by a hub.
#[derive(Debug, Clone, PartialEq, Eq)]
pub struct HandshakeFromHub {
    pub metadata: Metadata,
    pub state: String,
    pub balance_epoch: u32,
}

/// Notice that the edge balances: the epoch, the phase and its duration.
#[derive(Debug, Clone, PartialEq, Eq)]
pub struct StateBalanceMode {
    pub state: String,
    pub balance_epoch: u32,
    pub phase: String,
    pub duration: u32,
}

/// Notice that the edge operates normally.
#[derive(Debug, Clone, PartialEq, Eq)]
pub struct StateNormal {
    pub state: String,
}

/// Notice that the edge is in safe mode, with the timing the hubs follow.
#[derive(Debug, Clone, PartialEq, Eq)]
pub struct StateSafeMode {
    pub state: String,
    pub duration: u32,
    pub frequency: u32,
    pub jitter: u32,
}

/// Messages to the hubs.
#[derive(Debug, Clone, PartialEq, Eq)]
pub enum MessageToHub {
    Handshake(HandshakeToHub),
    StateBalanceMode(StateBalanceMode),
    StateNormal(StateNormal),
    StateSafeMode(StateSafeMode),
    ServerToHub(MessageFromServer),
}

/// Connection state of the broker.
#[derive(Debug, Clone, Copy, PartialEq, Eq, Structural)]
pub enum BrokerStatus {
    Connected,
    Disconnected,
}

/// Connection state of the server.
#[derive(Debug, Clone, Copy, PartialEq, Eq, Structural)]
pub enum ServerStatus {
    Connected,
    Disconnected,
}

/// Whether stored data is to be fetched.
#[derive(Debug, Clone, Copy, PartialEq, Eq, Structural)]
pub enum DataRequest {
    Get,
    NotGet,
}

/// A message ready to be published.
#[derive(Debug)]
pub struct SerializedMessage {
    pub topic: String,
    pub payload: Vec<u8>,
    pub qos: u8,
    pub retain: bool,
}

impl SerializedMessage {
    pub fn new(topic: String, payload: Vec<u8>, qos: u8, retain: bool) -> (m: Self)
        ensures
            m.topic@ == topic@,
            m.payload@ == payload@,
            m.qos == qos,
            m.retain == retain,
    {
        SerializedMessage { topic, payload, qos, retain }
    }
}

} // verus!
