//! Plain data carried between the agent, its durable stores, and the backend.
//!
//! Sensor readings are held as scaled integers (milli-degrees, per-mille,
//! micro-degrees) so that every field is a value the verifier can reason
//! about exactly.
use vstd::prelude::*;

verus! {

/// A geographic fix attached to a measurement: latitude and longitude in
/// micro-degrees, speed in hundredths of a unit.
#[derive(Clone, Copy)]
pub struct Position {
    pub lat_micro_deg: i64,
    pub lon_micro_deg: i64,
    pub speed_centi: u32,
}

/// One sensor sample. Immutable once created; destroyed only when the
/// backend has acknowledged it.
pub struct Measurement {
    /// Sampling instant, milliseconds since the Unix epoch.
    pub timestamp_ms: u64,
    /// Temperature in milli-degrees Celsius.
    pub temp_milli_c: i32,
    /// Relative humidity in thousandths (0..=100_000).
    pub humidity_milli: u32,
    /// Battery fraction in thousandths (0..=1_000).
    pub battery_milli: u32,
    /// Process-local counter; resets when the agent restarts.
    pub sequence_number: u32,
    pub position: Option<Position>,
    /// Firmware version the sample was taken under, when known.
    pub firmware_version: Option<String>,
}

/// Request body of the heartbeat call. The reported intervals are the
/// device's live values at the moment the heartbeat is built, not values
/// after any update the response may carry.
pub struct Heartbeat {
    pub device_id: String,
    pub firmware_version: String,
    pub reported_sample_interval_secs: u64,
    pub reported_upload_interval_secs: u64,
    pub reported_heartbeat_interval_secs: u64,
    pub region: Option<String>,
    pub hardware_rev: Option<String>,
}

/// Response body of the heartbeat call: backend-desired interval overrides
/// and an optional desired firmware version. Ephemeral; applied to the live
/// schedule and never persisted directly.
pub struct DesiredState {
    pub desired_version: Option<String>,
    pub desired_sample_interval_secs: u64,
    pub desired_upload_interval_secs: u64,
    pub desired_heartbeat_interval_secs: u64,
}

/// Description of the newest firmware image the backend offers.
pub struct FirmwareMetadata {
    pub version: String,
    pub checksum: String,
    pub url: String,
}

/// Request body of the ingest call: a batch of drained measurements.
pub struct IngestPayload {
    pub device_id: String,
    pub measurements: Vec<Measurement>,
}

/// Fleet-wide defaults as the backend publishes them.
pub struct FleetSettings {
    pub num_devices: u64,
    pub sample_interval_secs: u64,
    pub upload_interval_secs: u64,
    pub heartbeat_interval_secs: u64,
}

/// Request body of the one-time registration call.
pub struct RegisterPayload {
    pub boot_id: String,
}

/// Response body of the registration call: the identity and credential the
/// device keeps for its whole life.
pub struct RegisterResponse {
    pub device_id: String,
    pub auth_token: String,
}

/// A copy of an optional string, equal to the original.
pub fn clone_opt_string(s: &Option<String>) -> (r: Option<String>)
    ensures
        r == *s,
{
    match s {
        Some(x) => Some(x.clone()),
        None => None,
    }
}

/// A field-for-field copy of a measurement, equal to the original.
pub fn clone_measurement(m: &Measurement) -> (r: Measurement)
    ensures
        r == *m,
{
    Measurement {
        timestamp_ms: m.timestamp_ms,
        temp_milli_c: m.temp_milli_c,
        humidity_milli: m.humidity_milli,
        battery_milli: m.battery_milli,
        sequence_number: m.sequence_number,
        position: m.position,
        firmware_version: clone_opt_string(&m.firmware_version),
    }
}

} // verus!
