//! The records exchanged with the server over the remote link. Going up, a
//! message of the edge becomes an upload record, stamped with the edge's id;
//! coming down, a record of the server becomes a message of the edge. Every
//! single-precision reading travels as its IEEE-754 bit pattern.

use vstd::prelude::*;
use crate::database::batch::TableDataVector;
use crate::message::domain::{
    AlertAir, AlertTh, DeleteHub, Heartbeat, HelloWorld, Measurement, MessageServiceCommand, Metadata, Monitor,
    Network, ServerMessage, ServerStatus, SettingOk, Settings, UpdateFirmware,
};
use crate::message::logic::{server_after, update_server_status};
use crate::system::domain::InternalEvent;

verus! {

/// Routing data of a record of the remote link.
#[derive(Debug, Clone, PartialEq, Eq, Default)]
pub struct MetadataMsg {
    pub sender_user_id: String,
    pub destination_id: String,
    pub timestamp: i64,
}

#[derive(Debug, Clone, PartialEq, Eq)]
pub struct HelloWorldMsg {
    pub metadata: Option<MetadataMsg>,
    pub hello: bool,
}

#[derive(Debug, Clone, PartialEq, Eq)]
pub struct SettingsMsg {
    pub metadata: Option<MetadataMsg>,
    pub network: String,
    pub wifi_ssid: String,
    pub wifi_password: String,
    pub mqtt_uri: String,
    pub device_name: String,
    pub sample: u32,
    pub energy_mode: u32,
}

#[derive(Debug, Clone, PartialEq, Eq)]
pub struct SettingOkMsg {
    pub metadata: Option<MetadataMsg>,
    pub network: String,
    pub handshake: bool,
}

#[derive(Debug, Clone, PartialEq, Eq)]
pub struct FirmwareOutcomeMsg {
    pub metadata: Option<MetadataMsg>,
    pub network: String,
    pub is_ok: bool,
    pub percentage_ok: u32,
}

#[derive(Debug, Clone, PartialEq, Eq)]
pub struct MeasurementMsg {
    pub metadata: Option<MetadataMsg>,
    pub network: String,
    pub pulse_counter: i64,
    pub pulse_max_duration: i64,
    pub temperature: u32,
    pub humidity: u32,
    pub co2_ppm: u32,
    pub sample: u32,
}

#[derive(Debug, Clone, PartialEq, Eq)]
pub struct MonitorMsg {
    pub metadata: Option<MetadataMsg>,
    pub network: String,
    pub mem_free: i64,
    pub mem_free_hm: i64,
    pub mem_free_block: i64,
    pub mem_free_internal: i64,
    pub stack_free_min_coll: i64,
    pub stack_free_min_pub: i64,
    pub stack_free_min_mic: i64,
    pub stack_free_min_th: i64,
    pub stack_free_min_air: i64,
    pub stack_free_min_mon: i64,
    pub wifi_ssid: String,
    pub wifi_rssi: i32,
    pub active_time: i64,
}

#[derive(Debug, Clone, PartialEq, Eq)]
pub struct AlertAirMsg {
    pub metadata: Option<MetadataMsg>,
    pub network: String,
    pub co2_initial_ppm: u32,
    pub co2_actual_ppm: u32,
}

#[derive(Debug, Clone, PartialEq, Eq)]
pub struct AlertThMsg {
    pub metadata: Option<MetadataMsg>,
    pub network: String,
    pub initial_temp: u32,
    pub actual_temp: u32,
}

#[derive(Debug, Clone, PartialEq, Eq)]
pub struct SystemMetricsMsg {
    pub metadata: Option<MetadataMsg>,
    pub uptime_seconds: u64,
    pub cpu_usage_percent: u32,
    pub cpu_temp_celsius: u32,
    pub ram_total_mb: u64,
    pub ram_used_mb: u64,
    pub sd_total_gb: u64,
    pub sd_used_gb: u64,
    pub sd_usage_percent: u32,
    pub network_rx_bytes: u64,
    pub network_tx_bytes: u64,
    pub wifi_rssi: i32,
    pub wifi_signal_dbm: i32,
}

/// What an upload carries.
#[derive(Debug, Clone, PartialEq, Eq)]
pub enum UploadPayload {
    HelloWorld(HelloWorldMsg),
    Settings(SettingsMsg),
    SettingOk(SettingOkMsg),
    FirmwareOutcome(FirmwareOutcomeMsg),
    Measurement(MeasurementMsg),
    Monitor(MonitorMsg),
    AlertAir(AlertAirMsg),
    AlertTh(AlertThMsg),
    Metrics(SystemMetricsMsg),
}

/// An upload of the edge to the server.
#[derive(Debug, Clone, PartialEq, Eq)]
pub struct FromEdge {
    pub edge_id: String,
    pub payload: Option<UploadPayload>,
}

pub open spec fn meta_msg(m: Metadata) -> MetadataMsg {
    MetadataMsg { sender_user_id: m.sender_user_id, destination_id: m.destination_id, timestamp: m.timestamp }
}

pub open spec fn measurement_msg(r: Measurement) -> MeasurementMsg {
    MeasurementMsg {
        metadata: Some(meta_msg(r.metadata)),
        network: r.network,
        pulse_counter: r.pulse_counter,
        pulse_max_duration: r.pulse_max_duration,
        temperature: r.temperature,
        humidity: r.humidity,
        co2_ppm: r.co2_ppm,
        sample: r.sample as u32,
    }
}

pub open spec fn monitor_msg(m: Monitor) -> MonitorMsg {
    MonitorMsg {
        metadata: Some(meta_msg(m.metadata)),
        network: m.network,
        mem_free: m.mem_free,
        mem_free_hm: m.mem_free_hm,
        mem_free_block: m.mem_free_block,
        mem_free_internal: m.mem_free_internal,
        stack_free_min_coll: m.stack_free_min_coll,
        stack_free_min_pub: m.stack_free_min_pub,
        stack_free_min_mic: m.stack_free_min_mic,
        stack_free_min_th: m.stack_free_min_th,
        stack_free_min_air: m.stack_free_min_air,
        stack_free_min_mon: m.stack_free_min_mon,
        wifi_ssid: m.wifi_ssid,
        wifi_rssi: m.wifi_rssi as i32,
        active_time: m.active_time,
    }
}

pub open spec fn alert_air_msg(a: AlertAir) -> AlertAirMsg {
    AlertAirMsg {
        metadata: Some(meta_msg(a.metadata)),
        network: a.network,
        co2_initial_ppm: a.co2_initial_ppm,
        co2_actual_ppm: a.co2_actual_ppm,
    }
}

pub open spec fn alert_th_msg(a: AlertTh) -> AlertThMsg {
    AlertThMsg {
        metadata: Some(meta_msg(a.metadata)),
        network: a.network,
        initial_temp: a.initial_temp,
        actual_temp: a.actual_temp,
    }
}

/// What each message for the server becomes: its fields, each under the same
/// name, with the metadata present; a hub's sample and signal widened to 32
/// bits, and an absent WiFi value of the edge's metrics sent as 0. Messages
/// that are not for the server give nothing.
pub open spec fn upload_of(msg: ServerMessage) -> Option<UploadPayload> {
    match msg {
        ServerMessage::HelloWorld(h) => Some(
            UploadPayload::HelloWorld(HelloWorldMsg { metadata: Some(meta_msg(h.metadata)), hello: h.hello }),
        ),
        ServerMessage::FromHubSettings(s) => Some(
            UploadPayload::Settings(
                SettingsMsg {
                    metadata: Some(meta_msg(s.metadata)),
                    network: s.network,
                    wifi_ssid: s.wifi_ssid,
                    wifi_password: s.wifi_password,
                    mqtt_uri: s.mqtt_uri,
                    device_name: s.device_name,
                    sample: s.sample,
                    energy_mode: s.energy_mode,
                },
            ),
        ),
        ServerMessage::FromHubSettingsAck(a) => Some(
            UploadPayload::SettingOk(
                SettingOkMsg { metadata: Some(meta_msg(a.metadata)), network: a.network, handshake: a.handshake },
            ),
        ),
        ServerMessage::FirmwareOutcome(f) => Some(
            UploadPayload::FirmwareOutcome(
                FirmwareOutcomeMsg {
                    metadata: Some(meta_msg(f.metadata)),
                    network: f.network,
                    is_ok: f.is_ok,
                    percentage_ok: f.percentage_ok,
                },
            ),
        ),
        ServerMessage::Report(r) => Some(UploadPayload::Measurement(measurement_msg(r))),
        ServerMessage::Monitor(m) => Some(UploadPayload::Monitor(monitor_msg(m))),
        ServerMessage::AlertAir(a) => Some(UploadPayload::AlertAir(alert_air_msg(a))),
        ServerMessage::AlertTem(a) => Some(UploadPayload::AlertTh(alert_th_msg(a))),
        ServerMessage::Metrics(m) => Some(
            UploadPayload::Metrics(
                SystemMetricsMsg {
                    metadata: Some(meta_msg(m.metadata)),
                    uptime_seconds: m.uptime_seconds,
                    cpu_usage_percent: m.cpu_usage_percent,
                    cpu_temp_celsius: m.cpu_temp_celsius,
                    ram_total_mb: m.ram_total_mb,
                    ram_used_mb: m.ram_used_mb,
                    sd_total_gb: m.sd_total_gb,
                    sd_used_gb: m.sd_used_gb,
                    sd_usage_percent: m.sd_usage_percent,
                    network_rx_bytes: m.network_rx_bytes,
                    network_tx_bytes: m.network_tx_bytes,
                    wifi_rssi: match m.wifi_rssi {
                        Some(v) => v,
                        None => 0,
                    },
                    wifi_signal_dbm: match m.wifi_signal_dbm {
                        Some(v) => v,
                        None => 0,
                    },
                },
            ),
        ),
        _ => None,
    }
}

fn copy_meta(m: &Metadata) -> (r: MetadataMsg)
    ensures
        r == meta_msg(*m),
{
    MetadataMsg {
        sender_user_id: m.sender_user_id.clone(),
        destination_id: m.destination_id.clone(),
        timestamp: m.timestamp,
    }
}

fn copy_measurement(r: &Measurement) -> (m: MeasurementMsg)
    ensures
        m == measurement_msg(*r),
{
    MeasurementMsg {
        metadata: Some(copy_meta(&r.metadata)),
        network: r.network.clone(),
        pulse_counter: r.pulse_counter,
        pulse_max_duration: r.pulse_max_duration,
        temperature: r.temperature,
        humidity: r.humidity,
        co2_ppm: r.co2_ppm,
        sample: r.sample as u32,
    }
}

fn copy_monitor(m: &Monitor) -> (r: MonitorMsg)
    ensures
        r == monitor_msg(*m),
{
    MonitorMsg {
        metadata: Some(copy_meta(&m.metadata)),
        network: m.network.clone(),
        mem_free: m.mem_free,
        mem_free_hm: m.mem_free_hm,
        mem_free_block: m.mem_free_block,
        mem_free_internal: m.mem_free_internal,
        stack_free_min_coll: m.stack_free_min_coll,
        stack_free_min_pub: m.stack_free_min_pub,
        stack_free_min_mic: m.stack_free_min_mic,
        stack_free_min_th: m.stack_free_min_th,
        stack_free_min_air: m.stack_free_min_air,
        stack_free_min_mon: m.stack_free_min_mon,
        wifi_ssid: m.wifi_ssid.clone(),
        wifi_rssi: m.wifi_rssi as i32,
        active_time: m.active_time,
    }
}

fn copy_alert_air(a: &AlertAir) -> (r: AlertAirMsg)
    ensures
        r == alert_air_msg(*a),
{
    AlertAirMsg {
        metadata: Some(copy_meta(&a.metadata)),
        network: a.network.clone(),
        co2_initial_ppm: a.co2_initial_ppm,
        co2_actual_ppm: a.co2_actual_ppm,
    }
}

fn copy_alert_th(a: &AlertTh) -> (r: AlertThMsg)
    ensures
        r == alert_th_msg(*a),
{
    AlertThMsg {
        metadata: Some(copy_meta(&a.metadata)),
        network: a.network.clone(),
        initial_temp: a.initial_temp,
        actual_temp: a.actual_temp,
    }
}

/// The upload payload of a message for the server, if it is one.
fn upload_payload(msg: ServerMessage) -> (r: Option<UploadPayload>)
    ensures
        r == upload_of(msg),
{
    match msg {
        ServerMessage::HelloWorld(h) => Some(
            UploadPayload::HelloWorld(HelloWorldMsg { metadata: Some(copy_meta(&h.metadata)), hello: h.hello }),
        ),
        ServerMessage::FromHubSettings(s) => Some(
            UploadPayload::Settings(
                SettingsMsg {
                    metadata: Some(copy_meta(&s.metadata)),
                    network: s.network,
                    wifi_ssid: s.wifi_ssid,
                    wifi_password: s.wifi_password,
                    mqtt_uri: s.mqtt_uri,
                    device_name: s.device_name,
                    sample: s.sample,
                    energy_mode: s.energy_mode,
                },
            ),
        ),
        ServerMessage::FromHubSettingsAck(a) => Some(
            UploadPayload::SettingOk(
                SettingOkMsg { metadata: Some(copy_meta(&a.metadata)), network: a.network, handshake: a.handshake },
            ),
        ),
        ServerMessage::FirmwareOutcome(f) => Some(
            UploadPayload::FirmwareOutcome(
                FirmwareOutcomeMsg {
                    metadata: Some(copy_meta(&f.metadata)),
                    network: f.network,
                    is_ok: f.is_ok,
                    percentage_ok: f.percentage_ok,
                },
            ),
        ),
        ServerMessage::Report(r) => Some(UploadPayload::Measurement(copy_measurement(&r))),
        ServerMessage::Monitor(m) => Some(UploadPayload::Monitor(copy_monitor(&m))),
        ServerMessage::AlertAir(a) => Some(UploadPayload::AlertAir(copy_alert_air(&a))),
        ServerMessage::AlertTem(a) => Some(UploadPayload::AlertTh(copy_alert_th(&a))),
        ServerMessage::Metrics(m) => Some(
            UploadPayload::Metrics(
                SystemMetricsMsg {
                    metadata: Some(copy_meta(&m.metadata)),
                    uptime_seconds: m.uptime_seconds,
                    cpu_usage_percent: m.cpu_usage_percent,
                    cpu_temp_celsius: m.cpu_temp_celsius,
                    ram_total_mb: m.ram_total_mb,
                    ram_used_mb: m.ram_used_mb,
                    sd_total_gb: m.sd_total_gb,
                    sd_used_gb: m.sd_used_gb,
                    sd_usage_percent: m.sd_usage_percent,
                    network_rx_bytes: m.network_rx_bytes,
                    network_tx_bytes: m.network_tx_bytes,
                    wifi_rssi: match m.wifi_rssi {
                        Some(v) => v,
                        None => 0,
                    },
                    wifi_signal_dbm: match m.wifi_signal_dbm {
                        Some(v) => v,
                        None => 0,
                    },
                },
            ),
        ),
        _ => None,
    }
}

/// Wraps a payload, when there is one, into an upload of edge `edge_id`.
pub fn generate_edge_upload(payload: Option<UploadPayload>, edge_id: String) -> (r: Option<FromEdge>)
    ensures
        match payload {
            Some(p) => r == Some(FromEdge { edge_id, payload: Some(p) }),
            None => r is None,
        },
{
    match payload {
        Some(p) => Some(FromEdge { edge_id, payload: Some(p) }),
        None => None,
    }
}

/// The upload of edge `edge_id` for a message to the server; `None` for a
/// message that is not uploaded.
pub fn convert_to_proto_upload(msg: ServerMessage, edge_id: String) -> (r: Option<FromEdge>)
    ensures
        match upload_of(msg) {
            Some(p) => r == Some(FromEdge { edge_id, payload: Some(p) }),
            None => r is None,
        },
{
    generate_edge_upload(upload_payload(msg), edge_id)
}

/// The upload of edge `edge_id` that carries `p`.
pub open spec fn upload_record(edge_id: String, p: UploadPayload) -> FromEdge {
    FromEdge { edge_id, payload: Some(p) }
}

pub open spec fn measurement_uploads(rows: Seq<Measurement>, edge_id: String) -> Seq<FromEdge> {
    rows.map_values(|r: Measurement| upload_record(edge_id, UploadPayload::Measurement(measurement_msg(r))))
}

pub open spec fn monitor_uploads(rows: Seq<Monitor>, edge_id: String) -> Seq<FromEdge> {
    rows.map_values(|m: Monitor| upload_record(edge_id, UploadPayload::Monitor(monitor_msg(m))))
}

pub open spec fn alert_air_uploads(rows: Seq<AlertAir>, edge_id: String) -> Seq<FromEdge> {
    rows.map_values(|a: AlertAir| upload_record(edge_id, UploadPayload::AlertAir(alert_air_msg(a))))
}

pub open spec fn alert_th_uploads(rows: Seq<AlertTh>, edge_id: String) -> Seq<FromEdge> {
    rows.map_values(|a: AlertTh| upload_record(edge_id, UploadPayload::AlertTh(alert_th_msg(a))))
}

/// The uploads of a batch of stored telemetry: every reading, then every
/// health report, then every air alert, then every temperature alert, each in
/// stored order, exactly as each would be uploaded on its own.
pub open spec fn batch_uploads(b: TableDataVector, edge_id: String) -> Seq<FromEdge> {
    measurement_uploads(b.measurement@, edge_id) + monitor_uploads(b.monitor@, edge_id) + alert_air_uploads(
        b.alert_air@,
        edge_id,
    ) + alert_th_uploads(b.alert_th@, edge_id)
}

/// Turns a batch of stored telemetry into uploads of edge `edge_id`.
pub fn process_batch(batch: &TableDataVector, edge_id: &String) -> (r: Vec<FromEdge>)
    ensures
        r@ == batch_uploads(*batch, *edge_id),
{
    let mut out: Vec<FromEdge> = Vec::new();
    let n = batch.measurement.len();
    for i in 0..n
        invariant
            n == batch.measurement@.len(),
            out@ == measurement_uploads(batch.measurement@.take(i as int), *edge_id),
    {
        out.push(FromEdge { edge_id: edge_id.clone(), payload: Some(UploadPayload::Measurement(copy_measurement(&batch.measurement[i]))) });
        proof {
            assert(batch.measurement@.take(i + 1) =~= batch.measurement@.take(i as int).push(batch.measurement@[i as int]));
            assert(measurement_uploads(batch.measurement@.take(i + 1), *edge_id) =~= measurement_uploads(
                batch.measurement@.take(i as int),
                *edge_id,
            ).push(upload_record(*edge_id, UploadPayload::Measurement(measurement_msg(batch.measurement@[i as int])))));
        }
    }
    proof {
        assert(batch.measurement@.take(n as int) =~= batch.measurement@);
    }
    let ghost first = out@;
    let n = batch.monitor.len();
    for i in 0..n
        invariant
            n == batch.monitor@.len(),
            out@ == first + monitor_uploads(batch.monitor@.take(i as int), *edge_id),
    {
        out.push(FromEdge { edge_id: edge_id.clone(), payload: Some(UploadPayload::Monitor(copy_monitor(&batch.monitor[i]))) });
        proof {
            assert(batch.monitor@.take(i + 1) =~= batch.monitor@.take(i as int).push(batch.monitor@[i as int]));
            assert(monitor_uploads(batch.monitor@.take(i + 1), *edge_id) =~= monitor_uploads(
                batch.monitor@.take(i as int),
                *edge_id,
            ).push(upload_record(*edge_id, UploadPayload::Monitor(monitor_msg(batch.monitor@[i as int])))));
            assert(out@ =~= first + monitor_uploads(batch.monitor@.take(i + 1), *edge_id));
        }
    }
    proof {
        assert(batch.monitor@.take(n as int) =~= batch.monitor@);
    }
    let ghost second = out@;
    let n = batch.alert_air.len();
    for i in 0..n
        invariant
            n == batch.alert_air@.len(),
            out@ == second + alert_air_uploads(batch.alert_air@.take(i as int), *edge_id),
    {
        out.push(FromEdge { edge_id: edge_id.clone(), payload: Some(UploadPayload::AlertAir(copy_alert_air(&batch.alert_air[i]))) });
        proof {
            assert(batch.alert_air@.take(i + 1) =~= batch.alert_air@.take(i as int).push(batch.alert_air@[i as int]));
            assert(alert_air_uploads(batch.alert_air@.take(i + 1), *edge_id) =~= alert_air_uploads(
                batch.alert_air@.take(i as int),
                *edge_id,
            ).push(upload_record(*edge_id, UploadPayload::AlertAir(alert_air_msg(batch.alert_air@[i as int])))));
            assert(out@ =~= second + alert_air_uploads(batch.alert_air@.take(i + 1), *edge_id));
        }
    }
    proof {
        assert(batch.alert_air@.take(n as int) =~= batch.alert_air@);
    }
    let ghost third = out@;
    let n = batch.alert_th.len();
    for i in 0..n
        invariant
            n == batch.alert_th@.len(),
            out@ == third + alert_th_uploads(batch.alert_th@.take(i as int), *edge_id),
    {
        out.push(FromEdge { edge_id: edge_id.clone(), payload: Some(UploadPayload::AlertTh(copy_alert_th(&batch.alert_th[i]))) });
        proof {
            assert(batch.alert_th@.take(i + 1) =~= batch.alert_th@.take(i as int).push(batch.alert_th@[i as int]));
            assert(alert_th_uploads(batch.alert_th@.take(i + 1), *edge_id) =~= alert_th_uploads(
                batch.alert_th@.take(i as int),
                *edge_id,
            ).push(upload_record(*edge_id, UploadPayload::AlertTh(alert_th_msg(batch.alert_th@[i as int])))));
            assert(out@ =~= third + alert_th_uploads(batch.alert_th@.take(i + 1), *edge_id));
        }
    }
    proof {
        assert(batch.alert_th@.take(n as int) =~= batch.alert_th@);
        assert(out@ =~= batch_uploads(*batch, *edge_id));
    }
    out
}

/// The server's state when the uplink starts: connected, until told otherwise.
pub fn initial_server_status() -> (s: ServerStatus)
    ensures
        s == ServerStatus::Connected,
{
    ServerStatus::Connected
}

/// Whether `u` is the greeting of edge `edge_id` to the server, stamped `now`.
pub open spec fn is_greeting(u: FromEdge, edge_id: String, now: i64) -> bool {
    &&& u.edge_id == edge_id
    &&& u.payload matches Some(UploadPayload::HelloWorld(h))
    &&& h.hello
    &&& h.metadata matches Some(md)
    &&& md.sender_user_id == edge_id
    &&& md.destination_id@ == "Server0"@
    &&& md.timestamp == now
}

/// One decision of the uplink to the server. Connectivity events update the
/// server's state; while the server is disconnected, messages and batches are
/// dropped; otherwise a message becomes its upload (when it has one) and a
/// batch becomes the uploads of its rows. The greeting to `Server0`, stamped
/// `now`, is built whatever the state.
pub fn to_server_step(status: ServerStatus, cmd: MessageServiceCommand, edge_id: String, now: i64) -> (r: (
    ServerStatus,
    Vec<FromEdge>,
))
    ensures
        match cmd {
            MessageServiceCommand::Internal(e) => r.0 == server_after(status, e) && r.1@.len() == 0,
            MessageServiceCommand::Batch(b) => r.0 == status && r.1@ == (if status == ServerStatus::Disconnected {
                Seq::<FromEdge>::empty()
            } else {
                batch_uploads(b, edge_id)
            }),
            MessageServiceCommand::ToServer(m) => r.0 == status && r.1@ == (if status == ServerStatus::Disconnected {
                Seq::<FromEdge>::empty()
            } else {
                match upload_of(m) {
                    Some(p) => seq![upload_record(edge_id, p)],
                    None => Seq::<FromEdge>::empty(),
                }
            }),
            MessageServiceCommand::GenerateHelloWorld => r.0 == status && r.1@.len() == 1 && is_greeting(
                r.1@[0],
                edge_id,
                now,
            ),
            MessageServiceCommand::ToHub(_) => r.0 == status && r.1@.len() == 0,
        },
{
    let mut out: Vec<FromEdge> = Vec::new();
    match cmd {
        MessageServiceCommand::Internal(e) => (update_server_status(status, &e), out),
        MessageServiceCommand::Batch(b) => {
            if status == ServerStatus::Disconnected {
                (status, out)
            } else {
                (status, process_batch(&b, &edge_id))
            }
        },
        MessageServiceCommand::ToServer(m) => {
            if status == ServerStatus::Disconnected {
                (status, out)
            } else {
                match convert_to_proto_upload(m, edge_id) {
                    Some(u) => {
                        out.push(u);
                        (status, out)
                    },
                    None => (status, out),
                }
            }
        },
        MessageServiceCommand::GenerateHelloWorld => {
            let hello = HelloWorld {
                metadata: Metadata {
                    sender_user_id: edge_id.clone(),
                    destination_id: String::from_str("Server0"),
                    timestamp: now,
                },
                hello: true,
            };
            match convert_to_proto_upload(ServerMessage::HelloWorld(hello), edge_id) {
                Some(u) => {
                    out.push(u);
                    (status, out)
                },
                None => (status, out),
            }
        },
        MessageServiceCommand::ToHub(_) => (status, out),
    }
}

#[derive(Debug, Clone, PartialEq, Eq)]
pub struct UpdateFirmwareMsg {
    pub metadata: Option<MetadataMsg>,
    pub network: String,
    pub version: String,
    pub url: String,
    pub sha256: String,
}

#[derive(Debug, Clone, PartialEq, Eq)]
pub struct DeleteHubMsg {
    pub metadata: Option<MetadataMsg>,
    pub network: String,
}

#[derive(Debug, Clone, PartialEq, Eq)]
pub struct NetworkMsg {
    pub metadata: Option<MetadataMsg>,
    pub id_network: String,
    pub name_network: String,
    pub active: bool,
    pub delete_network: bool,
}

#[derive(Debug, Clone, PartialEq, Eq)]
pub struct HeartbeatMsg {
    pub metadata: Option<MetadataMsg>,
}

/// What a record of the server carries.
#[derive(Debug, Clone, PartialEq, Eq)]
pub enum DownloadPayload {
    UpdateFirmware(UpdateFirmwareMsg),
    Settings(SettingsMsg),
    DeleteHub(DeleteHubMsg),
    SettingOk(SettingOkMsg),
    Network(NetworkMsg),
    Heartbeat(HeartbeatMsg),
    HelloWorld(HelloWorldMsg),
}

/// A record sent by the server to the edge.
#[derive(Debug, Clone, PartialEq, Eq)]
pub struct ToEdgeMsg {
    pub payload: Option<DownloadPayload>,
}

/// Whether `md` is the metadata rebuilt from `m`: its fields when present,
/// empty texts and time 0 otherwise.
pub open spec fn metadata_from(m: Option<MetadataMsg>, md: Metadata) -> bool {
    match m {
        Some(x) => md == (Metadata {
            sender_user_id: x.sender_user_id,
            destination_id: x.destination_id,
            timestamp: x.timestamp,
        }),
        None => md.sender_user_id@ == Seq::<char>::empty() && md.destination_id@ == Seq::<char>::empty()
            && md.timestamp == 0,
    }
}

/// Rebuilds the metadata of a record of the server.
pub fn extract_metadata(m: Option<MetadataMsg>) -> (r: Metadata)
    ensures
        metadata_from(m, r),
{
    match m {
        Some(x) => Metadata { sender_user_id: x.sender_user_id, destination_id: x.destination_id, timestamp: x.timestamp },
        None => Metadata { sender_user_id: String::new(), destination_id: String::new(), timestamp: 0 },
    }
}

/// Whether `r` is the message of the edge that record `msg` of the server
/// becomes: a firmware update, hub settings, a hub removal, a settings
/// acknowledgement, a network, a heartbeat (always beating) or the greeting's
/// answer, each with its fields under the same names and the metadata rebuilt;
/// nothing for a record without payload.
pub open spec fn downlink_of(msg: ToEdgeMsg, r: Option<ServerMessage>) -> bool {
    match msg.payload {
        None => r is None,
        Some(DownloadPayload::UpdateFirmware(u)) => r matches Some(ServerMessage::UpdateFirmware(d)) && metadata_from(
            u.metadata,
            d.metadata,
        ) && d.network == u.network && d.version == u.version && d.url == u.url && d.sha256 == u.sha256,
        Some(DownloadPayload::Settings(s)) => r matches Some(ServerMessage::FromServerSettings(d)) && metadata_from(
            s.metadata,
            d.metadata,
        ) && d.network == s.network && d.wifi_ssid == s.wifi_ssid && d.wifi_password == s.wifi_password
            && d.mqtt_uri == s.mqtt_uri && d.device_name == s.device_name && d.sample == s.sample && d.energy_mode
            == s.energy_mode,
        Some(DownloadPayload::DeleteHub(h)) => r matches Some(ServerMessage::DeleteHub(d)) && metadata_from(
            h.metadata,
            d.metadata,
        ) && d.network == h.network,
        Some(DownloadPayload::SettingOk(a)) => r matches Some(ServerMessage::FromServerSettingsAck(d))
            && metadata_from(a.metadata, d.metadata) && d.network == a.network && d.handshake == a.handshake,
        Some(DownloadPayload::Network(n)) => r matches Some(ServerMessage::Network(d)) && metadata_from(
            n.metadata,
            d.metadata,
        ) && d.id_network == n.id_network && d.name_network == n.name_network && d.active == n.active
            && d.delete_network == n.delete_network,
        Some(DownloadPayload::Heartbeat(b)) => r matches Some(ServerMessage::Heartbeat(d)) && metadata_from(
            b.metadata,
            d.metadata,
        ) && d.beat,
        Some(DownloadPayload::HelloWorld(h)) => r matches Some(ServerMessage::HelloWorld(d)) && metadata_from(
            h.metadata,
            d.metadata,
        ) && d.hello == h.hello,
    }
}

/// The message of the edge that a record of the server becomes.
pub fn from_server(msg: ToEdgeMsg) -> (r: Option<ServerMessage>)
    ensures
        downlink_of(msg, r),
{
    match msg.payload {
        None => None,
        Some(DownloadPayload::UpdateFirmware(u)) => Some(
            ServerMessage::UpdateFirmware(
                UpdateFirmware {
                    metadata: extract_metadata(u.metadata),
                    network: u.network,
                    version: u.version,
                    url: u.url,
                    sha256: u.sha256,
                },
            ),
        ),
        Some(DownloadPayload::Settings(s)) => Some(
            ServerMessage::FromServerSettings(
                Settings {
                    metadata: extract_metadata(s.metadata),
                    network: s.network,
                    wifi_ssid: s.wifi_ssid,
                    wifi_password: s.wifi_password,
                    mqtt_uri: s.mqtt_uri,
                    device_name: s.device_name,
                    sample: s.sample,
                    energy_mode: s.energy_mode,
                },
            ),
        ),
        Some(DownloadPayload::DeleteHub(h)) => Some(
            ServerMessage::DeleteHub(DeleteHub { metadata: extract_metadata(h.metadata), network: h.network }),
        ),
        Some(DownloadPayload::SettingOk(a)) => Some(
            ServerMessage::FromServerSettingsAck(
                SettingOk { metadata: extract_metadata(a.metadata), network: a.network, handshake: a.handshake },
            ),
        ),
        Some(DownloadPayload::Network(n)) => Some(
            ServerMessage::Network(
                Network {
                    metadata: extract_metadata(n.metadata),
                    id_network: n.id_network,
                    name_network: n.name_network,
                    active: n.active,
                    delete_network: n.delete_network,
                },
            ),
        ),
        Some(DownloadPayload::Heartbeat(b)) => Some(
            ServerMessage::Heartbeat(Heartbeat { metadata: extract_metadata(b.metadata), beat: true }),
        ),
        Some(DownloadPayload::HelloWorld(h)) => Some(
            ServerMessage::HelloWorld(HelloWorld { metadata: extract_metadata(h.metadata), hello: h.hello }),
        ),
    }
}

/// Where a message from the server is delivered: the settings acknowledgement
/// goes straight to the hubs, everything else to the core.
#[derive(Debug, Clone, PartialEq, Eq)]
pub enum Downlink {
    ToCore(ServerMessage),
    ToHubs(ServerMessage),
}

/// Translates a record of the server and decides where it is delivered.
pub fn handle_grpc_message(msg: ToEdgeMsg) -> (r: Option<Downlink>)
    ensures
        match r {
            None => downlink_of(msg, None),
            Some(Downlink::ToHubs(m)) => downlink_of(msg, Some(m)) && msg.payload matches Some(
                DownloadPayload::SettingOk(_),
            ),
            Some(Downlink::ToCore(m)) => downlink_of(msg, Some(m)) && !(msg.payload matches Some(
                DownloadPayload::SettingOk(_),
            )),
        },
{
    let to_hubs = match &msg.payload {
        Some(DownloadPayload::SettingOk(_)) => true,
        _ => false,
    };
    match from_server(msg) {
        Some(m) => if to_hubs {
            Some(Downlink::ToHubs(m))
        } else {
            Some(Downlink::ToCore(m))
        },
        None => None,
    }
}

/// A record without payload is always dropped, and one with a payload always
/// becomes a message: the translation is total on what the server sends.
pub proof fn law_downlink_total(msg: ToEdgeMsg, r: Option<ServerMessage>)
    requires
        downlink_of(msg, r),
    ensures
        r is None <==> msg.payload is None,
{
}

fn copy_meta_opt(m: &Option<MetadataMsg>) -> (r: Option<MetadataMsg>)
    ensures
        r == *m,
{
    match m {
        Some(x) => Some(
            MetadataMsg {
                sender_user_id: x.sender_user_id.clone(),
                destination_id: x.destination_id.clone(),
                timestamp: x.timestamp,
            },
        ),
        None => None,
    }
}

/// A copy of a record of the server.
pub fn copy_to_edge(msg: &ToEdgeMsg) -> (r: ToEdgeMsg)
    ensures
        r == *msg,
{
    let payload = match &msg.payload {
        None => None,
        Some(DownloadPayload::UpdateFirmware(u)) => Some(
            DownloadPayload::UpdateFirmware(
                UpdateFirmwareMsg {
                    metadata: copy_meta_opt(&u.metadata),
                    network: u.network.clone(),
                    version: u.version.clone(),
                    url: u.url.clone(),
                    sha256: u.sha256.clone(),
                },
            ),
        ),
        Some(DownloadPayload::Settings(s)) => Some(
            DownloadPayload::Settings(
                SettingsMsg {
                    metadata: copy_meta_opt(&s.metadata),
                    network: s.network.clone(),
                    wifi_ssid: s.wifi_ssid.clone(),
                    wifi_password: s.wifi_password.clone(),
                    mqtt_uri: s.mqtt_uri.clone(),
                    device_name: s.device_name.clone(),
                    sample: s.sample,
                    energy_mode: s.energy_mode,
                },
            ),
        ),
        Some(DownloadPayload::DeleteHub(h)) => Some(
            DownloadPayload::DeleteHub(DeleteHubMsg { metadata: copy_meta_opt(&h.metadata), network: h.network.clone() }),
        ),
        Some(DownloadPayload::SettingOk(a)) => Some(
            DownloadPayload::SettingOk(
                SettingOkMsg { metadata: copy_meta_opt(&a.metadata), network: a.network.clone(), handshake: a.handshake },
            ),
        ),
        Some(DownloadPayload::Network(n)) => Some(
            DownloadPayload::Network(
                NetworkMsg {
                    metadata: copy_meta_opt(&n.metadata),
                    id_network: n.id_network.clone(),
                    name_network: n.name_network.clone(),
                    active: n.active,
                    delete_network: n.delete_network,
                },
            ),
        ),
        Some(DownloadPayload::Heartbeat(b)) => Some(
            DownloadPayload::Heartbeat(HeartbeatMsg { metadata: copy_meta_opt(&b.metadata) }),
        ),
        Some(DownloadPayload::HelloWorld(h)) => Some(
            DownloadPayload::HelloWorld(HelloWorldMsg { metadata: copy_meta_opt(&h.metadata), hello: h.hello }),
        ),
    };
    ToEdgeMsg { payload }
}

/// One decision of the downlink from the server: a received record is
/// translated and delivered; every other command is not for the downlink.
pub fn from_server_step(cmd: MessageServiceCommand) -> (r: Option<Downlink>)
    ensures
        match cmd {
            MessageServiceCommand::Internal(InternalEvent::IncomingGrpc(m)) => match r {
                None => downlink_of(m, None),
                Some(Downlink::ToHubs(x)) => downlink_of(m, Some(x)) && m.payload matches Some(
                    DownloadPayload::SettingOk(_),
                ),
                Some(Downlink::ToCore(x)) => downlink_of(m, Some(x)) && !(m.payload matches Some(
                    DownloadPayload::SettingOk(_),
                )),
            },
            _ => r is None,
        },
{
    match cmd {
        MessageServiceCommand::Internal(InternalEvent::IncomingGrpc(m)) => handle_grpc_message(m),
        _ => None,
    }
}

/// The record metadata of a message: the same sender, destination and time.
pub proof fn law_upload_metadata(m: Metadata)
    ensures
        meta_msg(m).sender_user_id == m.sender_user_id,
        meta_msg(m).destination_id == m.destination_id,
        meta_msg(m).timestamp == m.timestamp,
{
}

/// Each telemetry record goes up field by field under the same names: the
/// metadata present and equal, the network, every count and reading (as the
/// same bit pattern), a reading's sample and a health report's signal
/// widened without change of value.
pub proof fn law_telemetry_uploads_field_by_field(msg: ServerMessage)
    ensures
        msg matches ServerMessage::Report(r) ==> (upload_of(msg) matches Some(UploadPayload::Measurement(u))
            && u.metadata == Some(meta_msg(r.metadata)) && u.network == r.network && u.pulse_counter
            == r.pulse_counter && u.pulse_max_duration == r.pulse_max_duration && u.temperature == r.temperature
            && u.humidity == r.humidity && u.co2_ppm == r.co2_ppm && u.sample == r.sample),
        msg matches ServerMessage::Monitor(r) ==> (upload_of(msg) matches Some(UploadPayload::Monitor(u))
            && u.metadata == Some(meta_msg(r.metadata)) && u.network == r.network && u.mem_free == r.mem_free
            && u.mem_free_hm == r.mem_free_hm && u.mem_free_block == r.mem_free_block && u.mem_free_internal
            == r.mem_free_internal && u.stack_free_min_coll == r.stack_free_min_coll && u.stack_free_min_pub
            == r.stack_free_min_pub && u.stack_free_min_mic == r.stack_free_min_mic && u.stack_free_min_th
            == r.stack_free_min_th && u.stack_free_min_air == r.stack_free_min_air && u.stack_free_min_mon
            == r.stack_free_min_mon && u.wifi_ssid == r.wifi_ssid && u.wifi_rssi == r.wifi_rssi && u.active_time
            == r.active_time),
        msg matches ServerMessage::AlertAir(r) ==> (upload_of(msg) matches Some(UploadPayload::AlertAir(u))
            && u.metadata == Some(meta_msg(r.metadata)) && u.network == r.network && u.co2_initial_ppm
            == r.co2_initial_ppm && u.co2_actual_ppm == r.co2_actual_ppm),
        msg matches ServerMessage::AlertTem(r) ==> (upload_of(msg) matches Some(UploadPayload::AlertTh(u))
            && u.metadata == Some(meta_msg(r.metadata)) && u.network == r.network && u.initial_temp
            == r.initial_temp && u.actual_temp == r.actual_temp),
{
}

/// Every other message for the server goes up field by field too: the
/// greeting, a hub's settings and their acknowledgement, a roll-out's outcome,
/// and the edge's metrics, whose missing WiFi values are sent as 0. A message
/// of any other kind is not uploaded.
pub proof fn law_other_uploads_field_by_field(msg: ServerMessage)
    ensures
        msg matches ServerMessage::HelloWorld(r) ==> (upload_of(msg) matches Some(UploadPayload::HelloWorld(u))
            && u.metadata == Some(meta_msg(r.metadata)) && u.hello == r.hello),
        msg matches ServerMessage::FromHubSettings(r) ==> (upload_of(msg) matches Some(UploadPayload::Settings(u))
            && u.metadata == Some(meta_msg(r.metadata)) && u.network == r.network && u.wifi_ssid == r.wifi_ssid
            && u.wifi_password == r.wifi_password && u.mqtt_uri == r.mqtt_uri && u.device_name == r.device_name
            && u.sample == r.sample && u.energy_mode == r.energy_mode),
        msg matches ServerMessage::FromHubSettingsAck(r) ==> (upload_of(msg) matches Some(
            UploadPayload::SettingOk(u),
        ) && u.metadata == Some(meta_msg(r.metadata)) && u.network == r.network && u.handshake == r.handshake),
        msg matches ServerMessage::FirmwareOutcome(r) ==> (upload_of(msg) matches Some(
            UploadPayload::FirmwareOutcome(u),
        ) && u.metadata == Some(meta_msg(r.metadata)) && u.network == r.network && u.is_ok == r.is_ok
            && u.percentage_ok == r.percentage_ok),
        msg matches ServerMessage::Metrics(r) ==> (upload_of(msg) matches Some(UploadPayload::Metrics(u))
            && u.metadata == Some(meta_msg(r.metadata)) && u.uptime_seconds == r.uptime_seconds
            && u.cpu_usage_percent == r.cpu_usage_percent && u.cpu_temp_celsius == r.cpu_temp_celsius
            && u.ram_total_mb == r.ram_total_mb && u.ram_used_mb == r.ram_used_mb && u.sd_total_gb == r.sd_total_gb
            && u.sd_used_gb == r.sd_used_gb && u.sd_usage_percent == r.sd_usage_percent && u.network_rx_bytes
            == r.network_rx_bytes && u.network_tx_bytes == r.network_tx_bytes && (r.wifi_rssi matches Some(v)
            ==> u.wifi_rssi == v) && (r.wifi_rssi is None ==> u.wifi_rssi == 0) && (r.wifi_signal_dbm matches Some(
            v,
        ) ==> u.wifi_signal_dbm == v) && (r.wifi_signal_dbm is None ==> u.wifi_signal_dbm == 0)),
        (msg is UpdateFirmware || msg is DeleteHub || msg is FromServerSettings || msg is FromServerSettingsAck
            || msg is Network || msg is Heartbeat) ==> upload_of(msg) is None,
{
}

/// A stored batch goes up as the uploads of its rows, in the order readings,
/// health reports, air alerts, temperature alerts, each row exactly as it
/// would go up on its own.
pub proof fn law_batch_is_rows_uploaded(b: TableDataVector, edge_id: String)
    ensures
        batch_uploads(b, edge_id).len() == b.measurement@.len() + b.monitor@.len() + b.alert_air@.len()
            + b.alert_th@.len(),
        forall|i: int| #![trigger b.measurement@[i]]
            0 <= i < b.measurement@.len() ==> batch_uploads(b, edge_id)[i] == (FromEdge {
                edge_id,
                payload: upload_of(ServerMessage::Report(b.measurement@[i])),
            }),
        forall|i: int| #![trigger b.monitor@[i]]
            0 <= i < b.monitor@.len() ==> batch_uploads(b, edge_id)[b.measurement@.len() + i] == (FromEdge {
                edge_id,
                payload: upload_of(ServerMessage::Monitor(b.monitor@[i])),
            }),
        forall|i: int| #![trigger b.alert_air@[i]]
            0 <= i < b.alert_air@.len() ==> batch_uploads(b, edge_id)[b.measurement@.len() + b.monitor@.len() + i]
                == (FromEdge { edge_id, payload: upload_of(ServerMessage::AlertAir(b.alert_air@[i])) }),
        forall|i: int| #![trigger b.alert_th@[i]]
            0 <= i < b.alert_th@.len() ==> batch_uploads(b, edge_id)[b.measurement@.len() + b.monitor@.len()
                + b.alert_air@.len() + i] == (FromEdge {
                edge_id,
                payload: upload_of(ServerMessage::AlertTem(b.alert_th@[i])),
            }),
{
}

/// Metadata rebuilt from a record keeps the record's sender, destination and
/// time; absent metadata becomes empty texts and time 0.
pub proof fn law_metadata_rebuilt(m: Option<MetadataMsg>, md: Metadata)
    requires
        metadata_from(m, md),
    ensures
        m matches Some(x) ==> md.sender_user_id == x.sender_user_id && md.destination_id == x.destination_id
            && md.timestamp == x.timestamp,
        m is None ==> md.sender_user_id@.len() == 0 && md.destination_id@.len() == 0 && md.timestamp == 0,
{
}

/// A record of the server comes down field by field under the same names,
/// with its metadata rebuilt (empty texts and time 0 when absent); a
/// heartbeat always beats; a record without payload gives nothing.
pub proof fn law_downlink_field_by_field(msg: ToEdgeMsg, r: Option<ServerMessage>)
    requires
        downlink_of(msg, r),
    ensures
        msg.payload matches Some(DownloadPayload::UpdateFirmware(u)) ==> (r matches Some(
            ServerMessage::UpdateFirmware(d),
        ) && d.network == u.network && d.version == u.version && d.url == u.url && d.sha256 == u.sha256),
        msg.payload matches Some(DownloadPayload::Settings(u)) ==> (r matches Some(
            ServerMessage::FromServerSettings(d),
        ) && d.network == u.network && d.wifi_ssid == u.wifi_ssid && d.wifi_password == u.wifi_password
            && d.mqtt_uri == u.mqtt_uri && d.device_name == u.device_name && d.sample == u.sample && d.energy_mode
            == u.energy_mode),
        msg.payload matches Some(DownloadPayload::DeleteHub(u)) ==> (r matches Some(ServerMessage::DeleteHub(d))
            && d.network == u.network),
        msg.payload matches Some(DownloadPayload::SettingOk(u)) ==> (r matches Some(
            ServerMessage::FromServerSettingsAck(d),
        ) && d.network == u.network && d.handshake == u.handshake),
        msg.payload matches Some(DownloadPayload::Network(u)) ==> (r matches Some(ServerMessage::Network(d))
            && d.id_network == u.id_network && d.name_network == u.name_network && d.active == u.active
            && d.delete_network == u.delete_network),
        msg.payload matches Some(DownloadPayload::Heartbeat(_)) ==> (r matches Some(ServerMessage::Heartbeat(d))
            && d.beat),
        msg.payload matches Some(DownloadPayload::HelloWorld(u)) ==> (r matches Some(ServerMessage::HelloWorld(d))
            && d.hello == u.hello),
        msg.payload is None ==> r is None,
{
}

} // verus!
