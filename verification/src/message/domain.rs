//! Messages exchanged between hubs, the edge and the server.

use vstd::prelude::*;
use crate::database::batch::TableDataVector;
use crate::message::upload::FromEdge;
use crate::network::domain::HubRow;
use crate::system::domain::InternalEvent;

verus! {

/// Routing and traceability data carried by every message.
#[derive(Default, Debug, Clone, PartialEq, Eq, Hash)]
pub struct Metadata {
    pub sender_user_id: String,
    pub destination_id: String,
    pub timestamp: i64,
}

/// Whether two metadata carry the same sender, destination and time.
pub open spec fn same_meta(a: Metadata, b: Metadata) -> bool {
    a.sender_user_id@ == b.sender_user_id@ && a.destination_id@ == b.destination_id@ && a.timestamp == b.timestamp
}

impl Metadata {
    /// A copy of the metadata.
    pub fn duplicate(&self) -> (m: Metadata)
        ensures
            same_meta(m, *self),
    {
        Metadata {
            sender_user_id: self.sender_user_id.clone(),
            destination_id: self.destination_id.clone(),
            timestamp: self.timestamp,
        }
    }
}

/// Sensor readings of a hub. The readings are single-precision floating-point
/// numbers, carried here by their IEEE-754 bit patterns (`f32::to_bits`).
#[derive(Default, Debug, Clone, PartialEq, Eq)]
pub struct Measurement {
    pub metadata: Metadata,
    pub network: String,
    pub pulse_counter: i64,
    pub pulse_max_duration: i64,
    pub temperature: u32,
    pub humidity: u32,
    pub co2_ppm: u32,
    pub sample: u16,
}

/// Air-quality alert of a hub: the CO2 level when the alert began and now,
/// as IEEE-754 bit patterns of single-precision readings.
#[derive(Default, Debug, Clone, PartialEq, Eq)]
pub struct AlertAir {
    pub metadata: Metadata,
    pub network: String,
    pub co2_initial_ppm: u32,
    pub co2_actual_ppm: u32,
}

/// Temperature alert of a hub: the temperature when the alert began and now,
/// as IEEE-754 bit patterns of single-precision readings.
#[derive(Default, Debug, Clone, PartialEq, Eq)]
pub struct AlertTh {
    pub metadata: Metadata,
    pub network: String,
    pub initial_temp: u32,
    pub actual_temp: u32,
}

/// Health telemetry of a hub.
#[derive(Default, Debug, Clone, PartialEq, Eq)]
pub struct Monitor {
    pub metadata: Metadata,
    pub network: String,
    pub mem_free: i64,
    pub mem_free_hm: i64,
    pub mem_free_block: i64,
    pub mem_free_internal: i64,
    pub stack_free_min_coll: i64,
    pub stack_free_min_pub: i64,
    pub stack_free_min_mic: i64,
    pub stack_free_min_th: i64,
    pub stack_free_min_air: i64,
    pub stack_free_min_mon: i64,
    pub wifi_ssid: String,
    pub wifi_rssi: i8,
    pub active_time: i64,
}

/// A logical network as announced by the server.
#[derive(Debug, Clone, PartialEq, Eq)]
pub struct Network {
    pub metadata: Metadata,
    pub id_network: String,
    pub name_network: String,
    pub active: bool,
    pub delete_network: bool,
}

/// Remote configuration of a hub.
#[derive(Debug, Clone, PartialEq, Eq)]
pub struct Settings {
    pub metadata: Metadata,
    pub network: String,
    pub wifi_ssid: String,
    pub wifi_password: String,
    pub mqtt_uri: String,
    pub device_name: String,
    pub sample: u32,
    pub energy_mode: u32,
}

impl Settings {
    /// The hub record that these settings describe, attached to `network`.
    pub fn cast_settings_to_hub_row(self, network: String) -> (hr: HubRow)
        ensures
            hr.metadata == self.metadata,
            hr.network_id == network,
            hr.wifi_ssid == self.wifi_ssid,
            hr.wifi_password == self.wifi_password,
            hr.mqtt_uri == self.mqtt_uri,
            hr.device_name == self.device_name,
            hr.sample == self.sample,
            hr.energy_mode == self.energy_mode,
    {
        HubRow {
            metadata: Metadata {
                sender_user_id: self.metadata.sender_user_id,
                destination_id: self.metadata.destination_id,
                timestamp: self.metadata.timestamp,
            },
            network_id: network,
            wifi_ssid: self.wifi_ssid,
            wifi_password: self.wifi_password,
            mqtt_uri: self.mqtt_uri,
            device_name: self.device_name,
            sample: self.sample,
            energy_mode: self.energy_mode,
        }
    }
}

/// Handshake sent to the hubs: `flag` tells an entering (`in`) from a
/// leaving (`out`) handshake; `duration` is the answer window in seconds.
#[derive(Debug, Clone, PartialEq, Eq)]
pub struct HandshakeToHub {
    pub metadata: Metadata,
    pub flag: String,
    pub balance_epoch: u32,
    pub duration: u32,
}

/// Handshake answered by a hub.
#[derive(Debug, Clone, PartialEq, Eq)]
pub struct HandshakeFromHub {
    pub metadata: Metadata,
    pub state: String,
    pub balance_epoch: u32,
}

/// Notice that the edge is in balance mode.
#[derive(Debug, Clone, PartialEq, Eq)]
pub struct MessageStateBalanceMode {
    pub metadata: Metadata,
    pub state: String,
    pub balance_epoch: u32,
    pub sub_state: String,
    pub duration: u32,
}

/// Notice that the edge is in normal operation.
#[derive(Debug, Clone, PartialEq, Eq)]
pub struct MessageStateNormal {
    pub metadata: Metadata,
    pub state: String,
}

/// Notice that the edge is in safe mode.
#[derive(Debug, Clone, PartialEq, Eq)]
pub struct MessageStateSafeMode {
    pub metadata: Metadata,
    pub state: String,
    pub duration: u32,
    pub frequency: u32,
    pub jitter: u32,
}

/// Notice of a phase change inside balance mode.
#[derive(Debug, Clone, PartialEq, Eq)]
pub struct PhaseNotification {
    pub metadata: Metadata,
    pub state: String,
    pub epoch: u32,
    pub phase: String,
    pub frequency: u32,
    pub jitter: u32,
}

/// Liveness signal of the edge.
#[derive(Debug, Clone, PartialEq, Eq)]
pub struct Heartbeat {
    pub metadata: Metadata,
    pub beat: bool,
}

#[derive(Debug, Clone, PartialEq, Eq)]
pub struct HelloWorld {
    pub metadata: Metadata,
    pub hello: bool,
}

/// Order to remove a hub; `metadata.destination_id` names the hub.
#[derive(Debug, Clone, PartialEq, Eq)]
pub struct DeleteHub {
    pub metadata: Metadata,
    pub network: String,
}

#[derive(Debug, Clone, PartialEq, Eq)]
pub struct ActiveHub {
    pub metadata: Metadata,
    pub network: String,
    pub active: bool,
}

/// Acknowledgement of a configuration.
#[derive(Debug, Clone, PartialEq, Eq)]
pub struct SettingOk {
    pub metadata: Metadata,
    pub network: String,
    pub handshake: bool,
}

#[derive(Debug, Clone, PartialEq, Eq)]
pub struct UpdateFirmware {
    pub metadata: Metadata,
    pub network: String,
    pub version: String,
    pub url: String,
    pub sha256: String,
}

#[derive(Debug, Clone, PartialEq, Eq, Hash)]
pub struct FirmwareOk {
    pub metadata: Metadata,
    pub version: String,
    pub is_ok: bool,
}

/// Outcome of a firmware roll-out over a network, reported to the server; the
/// share of hubs that updated is a single-precision percentage, carried by its
/// IEEE-754 bit pattern.
#[derive(Debug, Clone, PartialEq, Eq)]
pub struct FirmwareOutcome {
    pub metadata: Metadata,
    pub network: String,
    pub is_ok: bool,
    pub percentage_ok: u32,
}

/// Health of the edge device itself, reported to the server. The percentages
/// and the temperature are single-precision readings, carried by their
/// IEEE-754 bit patterns; the WiFi values are absent without a wireless link.
#[derive(Debug, Clone, PartialEq, Eq)]
pub struct SystemMetrics {
    pub metadata: Metadata,
    pub uptime_seconds: u64,
    pub cpu_usage_percent: u32,
    pub cpu_temp_celsius: u32,
    pub ram_total_mb: u64,
    pub ram_used_mb: u64,
    pub sd_total_gb: u64,
    pub sd_used_gb: u64,
    pub sd_usage_percent: u32,
    pub network_rx_bytes: u64,
    pub network_tx_bytes: u64,
    pub wifi_rssi: Option<i32>,
    pub wifi_signal_dbm: Option<i32>,
}

/// Reachability probe between edge and hubs.
#[derive(Debug, Clone, PartialEq, Eq)]
pub struct Ping {
    pub metadata: Metadata,
    pub network: String,
    pub ping: bool,
}

/// Report of a hub whose outgoing queue is (or is not) empty.
#[derive(Debug, Clone, PartialEq, Eq)]
pub struct EmptyQueue {
    pub metadata: Metadata,
    pub queue_empty: bool,
}

/// Messages that travel between the edge and its hubs.
#[derive(Debug, Clone, PartialEq, Eq)]
pub enum HubMessage {
    Report(Measurement),
    Monitor(Monitor),
    AlertAir(AlertAir),
    AlertTem(AlertTh),
    HandshakeFromHub(HandshakeFromHub),
    FirmwareOk(FirmwareOk),
    FromHubSettings(Settings),
    FromHubSettingsAck(SettingOk),
    EmptyQueue(EmptyQueue),
    EmptyQueueSafe(EmptyQueue),
    Ping(Ping),
    Heartbeat(Heartbeat),
    HandshakeToHub(HandshakeToHub),
    PhaseNotification(PhaseNotification),
    StateBalanceMode(MessageStateBalanceMode),
    StateNormal(MessageStateNormal),
    StateSafeMode(MessageStateSafeMode),
    UpdateFirmware(UpdateFirmware),
    DeleteHub(DeleteHub),
    ActiveHub(ActiveHub),
    FromServerSettings(Settings),
    FromServerSettingsAck(SettingOk),
    PingToHub(Ping),
}

/// Messages that travel between the edge and the server.
#[derive(Debug, Clone, PartialEq, Eq)]
pub enum ServerMessage {
    UpdateFirmware(UpdateFirmware),
    DeleteHub(DeleteHub),
    FromServerSettings(Settings),
    FromServerSettingsAck(SettingOk),
    FromHubSettings(Settings),
    FromHubSettingsAck(SettingOk),
    Network(Network),
    Heartbeat(Heartbeat),
    HelloWorld(HelloWorld),
    Report(Measurement),
    Monitor(Monitor),
    AlertAir(AlertAir),
    AlertTem(AlertTh),
    FirmwareOutcome(FirmwareOutcome),
    Metrics(SystemMetrics),
}

/// What the core hands to the message service.
#[derive(Debug, Clone, PartialEq, Eq)]
pub enum MessageServiceCommand {
    ToHub(HubMessage),
    ToServer(ServerMessage),
    Internal(InternalEvent),
    GenerateHelloWorld,
    /// Stored telemetry, read back to be sent to the server.
    Batch(TableDataVector),
}

/// What the message service hands back to the core: decoded messages of the
/// hubs and of the server, encoded messages ready for the local broker, and
/// uploads for the server.
#[derive(Debug, Clone, PartialEq)]
pub enum MessageServiceResponse {
    FromHub(HubMessage),
    FromServer(ServerMessage),
    Serialized(SerializedMessage),
    /// An upload for the server's link.
    EdgeUpload(FromEdge),
}

/// Connection state of the remote server.
#[derive(Debug, Clone, Copy, PartialEq, Eq, Structural)]
pub enum ServerStatus {
    Connected,
    Disconnected,
}

/// Connection state of the local broker.
#[derive(Debug, Clone, Copy, PartialEq, Eq, Structural)]
pub enum LocalStatus {
    Connected,
    Disconnected,
}

/// A message ready to be published: topic, encoded payload and transport flags.
#[derive(Debug, Clone, PartialEq)]
pub struct SerializedMessage {
    topic: String,
    payload: Vec<u8>,
    qos: u8,
    retain: bool,
}

impl SerializedMessage {
    pub closed spec fn topic(&self) -> Seq<char> {
        self.topic@
    }

    pub closed spec fn payload(&self) -> Seq<u8> {
        self.payload@
    }

    pub closed spec fn qos(&self) -> u8 {
        self.qos
    }

    pub closed spec fn retain(&self) -> bool {
        self.retain
    }

    pub fn new(topic: String, payload: Vec<u8>, qos: u8, retain: bool) -> (m: Self)
        ensures
            m.topic() == topic@,
            m.payload() == payload@,
            m.qos() == qos,
            m.retain() == retain,
    {
        SerializedMessage { topic, payload, qos, retain }
    }

    pub fn get_topic(&self) -> (t: &str)
        ensures
            t@ == self.topic(),
    {
        self.topic.as_str()
    }

    pub fn get_payload(&self) -> (p: &[u8])
        ensures
            p@ == self.payload(),
    {
        self.payload.as_slice()
    }

    pub fn get_qos(&self) -> (q: u8)
        ensures
            q == self.qos(),
    {
        self.qos
    }

    pub fn get_retain(&self) -> (r: bool)
        ensures
            r == self.retain(),
    {
        self.retain
    }
}

} // verus!
