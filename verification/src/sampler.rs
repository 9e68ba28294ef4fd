//! The telemetry sampler: simulated sensor readings and a simulated random
//! walk over position and speed.
//!
//! All sampler state is explicit and owned here — the sequence counter and
//! the simulated position are fields, not process globals. Randomness and
//! the clock come from the host; everything proved here holds for every
//! value they return: readings stay inside their advertised ranges, the
//! position moves by a bounded step and stays a valid coordinate, speed is
//! clamped to its range, and the sequence number counts every sample.
use crate::host::{draw_in_range, now_unix_millis};
use crate::types::{Measurement, Position};
use vstd::prelude::*;

verus! {

pub const MIN_TEMP_MILLI_C: i64 = 17_500;

pub const MAX_TEMP_MILLI_C: i64 = 22_500;

pub const MIN_HUMIDITY_MILLI: i64 = 45_000;

pub const MAX_HUMIDITY_MILLI: i64 = 55_000;

pub const MIN_BATTERY_MILLI: i64 = 800;

pub const MAX_BATTERY_MILLI: i64 = 900;

/// Largest step of the position walk, in micro-degrees per sample.
pub const MAX_POSITION_STEP_MICRO_DEG: i64 = 500;

/// Largest step of the speed walk, in hundredths per sample.
pub const MAX_SPEED_STEP_CENTI: i64 = 250;

/// Speed is clamped to 0..=MAX_SPEED_CENTI.
pub const MAX_SPEED_CENTI: u32 = 10_000;

pub const MAX_LAT_MICRO_DEG: i64 = 90_000_000;

pub const MAX_LON_MICRO_DEG: i64 = 180_000_000;

/// The sampler's private state: the process-local sequence counter and the
/// simulated position.
pub struct SamplerState {
    pub sequence_number: u32,
    pub lat_micro_deg: i64,
    pub lon_micro_deg: i64,
    pub speed_centi: u32,
}

impl SamplerState {
    /// Well-formed: the position is a valid coordinate and the speed is in
    /// range.
    pub open spec fn wf(self) -> bool {
        &&& -MAX_LAT_MICRO_DEG <= self.lat_micro_deg <= MAX_LAT_MICRO_DEG
        &&& -MAX_LON_MICRO_DEG <= self.lon_micro_deg <= MAX_LON_MICRO_DEG
        &&& self.speed_centi <= MAX_SPEED_CENTI
    }

    /// The sampler of a freshly started process: the counter at zero, the
    /// simulated device standing still at its fixed starting point.
    pub fn new() -> (s: SamplerState)
        ensures
            s.wf(),
            s.sequence_number == 0,
            s.lat_micro_deg == 34_052_235,
            s.lon_micro_deg == -118_243_683,
            s.speed_centi == 0,
    {
        SamplerState {
            sequence_number: 0,
            lat_micro_deg: 34_052_235,
            lon_micro_deg: -118_243_683,
            speed_centi: 0,
        }
    }

    /// Take one sample: draw readings in their ranges, step the position
    /// walk, and stamp the sample with the running firmware version and the
    /// next sequence number. The counter wraps at the top of its type, as a
    /// hardware counter would.
    pub fn generate_measurement(&mut self, firmware_version: String) -> (m: Measurement)
        requires
            old(self).wf(),
        ensures
            final(self).wf(),
            m.sequence_number == old(self).sequence_number,
            final(self).sequence_number == (if old(self).sequence_number == u32::MAX {
                0u32
            } else {
                (old(self).sequence_number + 1) as u32
            }),
            m.firmware_version == Some(firmware_version),
            MIN_TEMP_MILLI_C <= m.temp_milli_c <= MAX_TEMP_MILLI_C,
            MIN_HUMIDITY_MILLI <= m.humidity_milli <= MAX_HUMIDITY_MILLI,
            MIN_BATTERY_MILLI <= m.battery_milli <= MAX_BATTERY_MILLI,
            m.position == Some(Position {
                lat_micro_deg: final(self).lat_micro_deg,
                lon_micro_deg: final(self).lon_micro_deg,
                speed_centi: final(self).speed_centi,
            }),
            old(self).lat_micro_deg - MAX_POSITION_STEP_MICRO_DEG <= final(self).lat_micro_deg
                <= old(self).lat_micro_deg + MAX_POSITION_STEP_MICRO_DEG,
            old(self).lon_micro_deg - MAX_POSITION_STEP_MICRO_DEG <= final(self).lon_micro_deg
                <= old(self).lon_micro_deg + MAX_POSITION_STEP_MICRO_DEG,
            old(self).speed_centi - MAX_SPEED_STEP_CENTI <= final(self).speed_centi
                <= old(self).speed_centi + MAX_SPEED_STEP_CENTI,
    {
        let sequence_number = self.sequence_number;
        self.sequence_number = if self.sequence_number == u32::MAX {
            0
        } else {
            self.sequence_number + 1
        };

        let temp_milli_c = draw_in_range(MIN_TEMP_MILLI_C, MAX_TEMP_MILLI_C) as i32;
        let humidity_milli = draw_in_range(MIN_HUMIDITY_MILLI, MAX_HUMIDITY_MILLI) as u32;
        let battery_milli = draw_in_range(MIN_BATTERY_MILLI, MAX_BATTERY_MILLI) as u32;

        let lat_step = draw_in_range(-MAX_POSITION_STEP_MICRO_DEG, MAX_POSITION_STEP_MICRO_DEG);
        let lat = clamp_i64(
            self.lat_micro_deg + lat_step,
            -MAX_LAT_MICRO_DEG,
            MAX_LAT_MICRO_DEG,
        );
        self.lat_micro_deg = lat;

        let lon_step = draw_in_range(-MAX_POSITION_STEP_MICRO_DEG, MAX_POSITION_STEP_MICRO_DEG);
        let lon = clamp_i64(
            self.lon_micro_deg + lon_step,
            -MAX_LON_MICRO_DEG,
            MAX_LON_MICRO_DEG,
        );
        self.lon_micro_deg = lon;

        let speed_step = draw_in_range(-MAX_SPEED_STEP_CENTI, MAX_SPEED_STEP_CENTI);
        let speed = clamp_i64(self.speed_centi as i64 + speed_step, 0, MAX_SPEED_CENTI as i64)
            as u32;
        self.speed_centi = speed;

        Measurement {
            timestamp_ms: now_unix_millis(),
            temp_milli_c,
            humidity_milli,
            battery_milli,
            sequence_number,
            position: Some(
                Position { lat_micro_deg: lat, lon_micro_deg: lon, speed_centi: speed },
            ),
            firmware_version: Some(firmware_version),
        }
    }
}

/// `v` forced into `lo..=hi`.
pub fn clamp_i64(v: i64, lo: i64, hi: i64) -> (r: i64)
    requires
        lo <= hi,
    ensures
        lo <= r <= hi,
        lo <= v <= hi ==> r == v,
        v < lo ==> r == lo,
        v > hi ==> r == hi,
{
    if v < lo {
        lo
    } else if v > hi {
        hi
    } else {
        v
    }
}

} // verus!
