//! Values exchanged between the runtime's components.

use vstd::prelude::*;

verus! {

/// One scan observation of a beacon: its address, signal strength in dBm,
/// and the local monotonic time of the observation in nanoseconds.
#[derive(Clone, Debug)]
pub struct DeviceInfo {
    pub address: String,
    pub rssi: i16,
    pub last_seen_ns: u64,
}

/// A request to play a one-shot sound effect.
#[derive(Clone, Debug)]
pub struct SePlayRequest {
    pub file_path: String,
}

/// The node's enable flag as published by the session, tagged with the node
/// it is meant for.
#[derive(Clone, Debug)]
pub struct SystemEnabledState {
    pub enabled: bool,
    pub target_device_id: String,
}

/// One entry of a moonlight (enable-flag) update from the server.
#[derive(Clone, Debug)]
pub struct MoonlightEntry {
    pub device: String,
    pub address: String,
    pub enabled: bool,
}

/// One `{address, rssi}` pair of an uplink request.
#[derive(Clone, Debug)]
pub struct LocationRssi {
    pub address: String,
    pub rssi: i32,
}

/// One uplink batch: the reporting node and the observations it carries.
pub struct StreamDeviceInfoRequest {
    pub user_id: String,
    pub locations: Vec<LocationRssi>,
}

} // verus!
