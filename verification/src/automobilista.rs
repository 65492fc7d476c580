//! Automobilista 1 telemetry from the ISI InternalsPlugin shared memory
//! (`$rFactor$`, the `rF1VehicleTelemetry` record).
use crate::bytes::{as_i32, le_u32, le_u64, read_i32_le, read_u32_le, read_u64_le};
use crate::error::TelemetryError;
use crate::process::{equals_any, matches_any_exactly};
use vstd::prelude::*;

verus! {

/// Readable size up to and including the speed field.
pub const AMS1_MIN_SHARED_MEMORY_SIZE: usize = 532;
/// Size of the mapped view.
pub const AMS1_MAP_SIZE: usize = 2048;
pub const DEFAULT_UPDATE_RATE_MS: u64 = 16;

pub const OFF_LOCAL_ACCEL_X: usize = 216;
pub const OFF_LOCAL_ACCEL_Z: usize = 232;
pub const OFF_GEAR: usize = 360;
pub const OFF_ENGINE_RPM: usize = 368;
pub const OFF_ENGINE_MAX_RPM: usize = 384;
pub const OFF_FUEL_CAPACITY: usize = 457;
pub const OFF_FUEL: usize = 460;
pub const OFF_FILTERED_THROTTLE: usize = 492;
pub const OFF_FILTERED_BRAKE: usize = 496;
pub const OFF_FILTERED_STEERING: usize = 500;
pub const OFF_SPEED: usize = 528;

/// The fields of a snapshot: single-precision values as 32-bit patterns,
/// double-precision ones as 64-bit patterns, exactly as stored.
#[derive(Debug, Clone, Copy, PartialEq, Eq, Structural)]
pub struct Ams1Snapshot {
    pub speed_bits: u32,
    pub rpm_bits: u64,
    pub max_rpm_bits: u64,
    pub gear: i8,
    pub throttle_bits: u32,
    pub brake_bits: u32,
    pub steering_bits: u32,
    pub lateral_accel_bits: u64,
    pub longitudinal_accel_bits: u64,
    pub fuel_capacity: u8,
    pub fuel_bits: u32,
}

/// The plugin gear clamped to reverse (-1) .. eighth (8).
pub open spec fn ams1_gear(g: int) -> i8 {
    if g < -1 {
        -1i8
    } else if g > 8 {
        8i8
    } else {
        g as i8
    }
}

fn gear_from_i32(g: i32) -> (r: i8)
    ensures
        r == ams1_gear(g as int),
{
    if g < -1 {
        -1
    } else if g > 8 {
        8
    } else {
        g as i8
    }
}

/// The fields of a snapshot of at least 532 bytes.
pub open spec fn ams1_snapshot_of(d: Seq<u8>) -> Ams1Snapshot {
    Ams1Snapshot {
        speed_bits: le_u32(d, OFF_SPEED as int) as u32,
        rpm_bits: le_u64(d, OFF_ENGINE_RPM as int) as u64,
        max_rpm_bits: le_u64(d, OFF_ENGINE_MAX_RPM as int) as u64,
        gear: ams1_gear(as_i32(le_u32(d, OFF_GEAR as int))),
        throttle_bits: le_u32(d, OFF_FILTERED_THROTTLE as int) as u32,
        brake_bits: le_u32(d, OFF_FILTERED_BRAKE as int) as u32,
        steering_bits: le_u32(d, OFF_FILTERED_STEERING as int) as u32,
        lateral_accel_bits: le_u64(d, OFF_LOCAL_ACCEL_X as int) as u64,
        longitudinal_accel_bits: le_u64(d, OFF_LOCAL_ACCEL_Z as int) as u64,
        fuel_capacity: d[OFF_FUEL_CAPACITY as int],
        fuel_bits: le_u32(d, OFF_FUEL as int) as u32,
    }
}

/// Parse a shared-memory snapshot of at least 532 bytes.
pub fn parse_snapshot(data: &[u8]) -> (r: Result<Ams1Snapshot, TelemetryError>)
    ensures
        r == (if data@.len() < AMS1_MIN_SHARED_MEMORY_SIZE {
            Err(TelemetryError::TooShort { needed: AMS1_MIN_SHARED_MEMORY_SIZE, actual: data@.len() as usize })
        } else {
            Ok(ams1_snapshot_of(data@))
        }),
{
    if data.len() < AMS1_MIN_SHARED_MEMORY_SIZE {
        return Err(TelemetryError::TooShort { needed: AMS1_MIN_SHARED_MEMORY_SIZE, actual: data.len() });
    }
    Ok(Ams1Snapshot {
        speed_bits: read_u32_le(data, OFF_SPEED),
        rpm_bits: read_u64_le(data, OFF_ENGINE_RPM),
        max_rpm_bits: read_u64_le(data, OFF_ENGINE_MAX_RPM),
        gear: gear_from_i32(read_i32_le(data, OFF_GEAR)),
        throttle_bits: read_u32_le(data, OFF_FILTERED_THROTTLE),
        brake_bits: read_u32_le(data, OFF_FILTERED_BRAKE),
        steering_bits: read_u32_le(data, OFF_FILTERED_STEERING),
        lateral_accel_bits: read_u64_le(data, OFF_LOCAL_ACCEL_X),
        longitudinal_accel_bits: read_u64_le(data, OFF_LOCAL_ACCEL_Z),
        fuel_capacity: data[OFF_FUEL_CAPACITY],
        fuel_bits: read_u32_le(data, OFF_FUEL),
    })
}

/// The executable names Automobilista 1 runs under.
pub open spec fn ams1_process_names() -> Seq<&'static str> {
    seq!["automobilista.exe", "game.exe"]
}

/// Whether a running process's executable name is Automobilista 1's.
pub fn is_ams1_process_name(exe_name: &[u8]) -> (r: bool)
    ensures
        r == matches_any_exactly(exe_name@, ams1_process_names()),
{
    let names: [&str; 2] = ["automobilista.exe", "game.exe"];
    assert(names@ =~= ams1_process_names());
    equals_any(exe_name, names.as_slice())
}

/// Automobilista 1 adapter configuration.
#[derive(Debug, Clone, Copy, PartialEq, Eq, Structural)]
pub struct Automobilista1Adapter {
    pub update_rate_ms: u64,
}

impl Automobilista1Adapter {
    pub fn new() -> (r: Self)
        ensures
            r.update_rate_ms == DEFAULT_UPDATE_RATE_MS,
    {
        Automobilista1Adapter { update_rate_ms: DEFAULT_UPDATE_RATE_MS }
    }

    pub fn game_id(&self) -> (r: &'static str)
        ensures
            r@ == "automobilista"@,
    {
        "automobilista"
    }

    pub fn expected_update_rate_ms(&self) -> (r: u64)
        ensures
            r == self.update_rate_ms,
    {
        self.update_rate_ms
    }

    pub fn normalize(&self, raw: &[u8]) -> (r: Result<Ams1Snapshot, TelemetryError>)
        ensures
            r == (if raw@.len() < AMS1_MIN_SHARED_MEMORY_SIZE {
                Err(TelemetryError::TooShort { needed: AMS1_MIN_SHARED_MEMORY_SIZE, actual: raw@.len() as usize })
            } else {
                Ok(ams1_snapshot_of(raw@))
            }),
    {
        parse_snapshot(raw)
    }
}

} // verus!
