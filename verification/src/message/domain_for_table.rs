//! Rows of the local tables and the records rebuilt from them.

use vstd::prelude::*;
use crate::message::msg_type::{DestinationType, Metadata, Monitor};
use crate::network::domain::Hub;

verus! {

/// Routing data of a stored row, with the topic it arrived on.
#[derive(Default, Debug, Clone, PartialEq, Eq, Hash)]
pub struct MetadataRow {
    pub sender_user_id: String,
    pub destination_type: DestinationType,
    pub destination_id: String,
    pub timestamp: String,
    pub topic_where_arrive: String,
}

impl MetadataRow {
    /// The record's metadata: the row's without the arrival topic.
    pub fn cast_metadata(self) -> (m: Metadata)
        ensures
            m.sender_user_id == self.sender_user_id,
            m.destination_type == self.destination_type,
            m.destination_id == self.destination_id,
            m.timestamp == self.timestamp,
    {
        Metadata {
            sender_user_id: self.sender_user_id,
            destination_type: self.destination_type,
            destination_id: self.destination_id,
            timestamp: self.timestamp,
        }
    }
}

/// A stored health report.
#[derive(Default, Debug, Clone, PartialEq, Eq)]
pub struct MonitorRow {
    pub metadata: MetadataRow,
    pub mem_free: i64,
    pub mem_free_hm: i64,
    pub mem_free_block: i64,
    pub mem_free_internal: i64,
    pub stack_free_min_coll: i64,
    pub stack_free_min_pub: i64,
    pub stack_free_min_mic: i64,
    pub stack_free_min_th: i64,
    pub stack_free_min_air: i64,
    pub stack_free_min_mon: i64,
    pub wifi_ssid: String,
    pub wifi_rssi: i8,
    pub active_time: String,
}

impl MonitorRow {
    /// The health record of the row: its metadata and every measured field.
    pub fn cast_monitor(self) -> (m: Monitor)
        ensures
            m.metadata.sender_user_id == self.metadata.sender_user_id,
            m.metadata.destination_type == self.metadata.destination_type,
            m.metadata.destination_id == self.metadata.destination_id,
            m.metadata.timestamp == self.metadata.timestamp,
            m.mem_free == self.mem_free,
            m.mem_free_hm == self.mem_free_hm,
            m.mem_free_block == self.mem_free_block,
            m.mem_free_internal == self.mem_free_internal,
            m.stack_free_min_coll == self.stack_free_min_coll,
            m.stack_free_min_pub == self.stack_free_min_pub,
            m.stack_free_min_mic == self.stack_free_min_mic,
            m.stack_free_min_th == self.stack_free_min_th,
            m.stack_free_min_air == self.stack_free_min_air,
            m.stack_free_min_mon == self.stack_free_min_mon,
            m.wifi_ssid == self.wifi_ssid,
            m.wifi_rssi == self.wifi_rssi,
            m.active_time == self.active_time,
    {
        Monitor {
            metadata: self.metadata.cast_metadata(),
            mem_free: self.mem_free,
            mem_free_hm: self.mem_free_hm,
            mem_free_block: self.mem_free_block,
            mem_free_internal: self.mem_free_internal,
            stack_free_min_coll: self.stack_free_min_coll,
            stack_free_min_pub: self.stack_free_min_pub,
            stack_free_min_mic: self.stack_free_min_mic,
            stack_free_min_th: self.stack_free_min_th,
            stack_free_min_air: self.stack_free_min_air,
            stack_free_min_mon: self.stack_free_min_mon,
            wifi_ssid: self.wifi_ssid,
            wifi_rssi: self.wifi_rssi,
            active_time: self.active_time,
        }
    }
}

/// A stored hub.
#[derive(Default, Debug, Clone, PartialEq, Eq, Hash)]
pub struct HubRow {
    pub metadata: MetadataRow,
    pub network_id: String,
    pub wifi_ssid: String,
    pub wifi_password: String,
    pub mqtt_uri: String,
    pub device_name: String,
    pub sample: u16,
    pub energy_mode: u8,
}

impl HubRow {
    /// The hub of the row: its sender id, device name and energy mode.
    pub fn cast_to_hub(self) -> (hub: Hub)
        ensures
            hub.id == self.metadata.sender_user_id,
            hub.device_name == self.device_name,
            hub.energy_mode == self.energy_mode as u32,
    {
        Hub { id: self.metadata.sender_user_id, device_name: self.device_name, energy_mode: self.energy_mode as u32 }
    }
}

} // verus!
