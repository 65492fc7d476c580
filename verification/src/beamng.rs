//! BeamNG.drive telemetry over the LFS OutGauge UDP protocol (port 4444 by
//! community convention).
//!
//! The packet is 92 bytes, or 96 with the optional trailing `id`. Fields:
//! time (u32 at 0), car (4 bytes at 4), flags (u16 at 8), gear (u8 at 10:
//! 0 reverse, 1 neutral, 2 first, ...), player id (u8 at 11), then
//! single-precision speed (12), rpm (16), turbo, engine temperature, fuel,
//! oil pressure and temperature, dash and shown lights, throttle (48), brake
//! (52), clutch (56), and two 16-byte displays.
use crate::bytes::{finite_or_zero, le_u32, read_float_bits_finite, wrap_i8};
use crate::error::TelemetryError;
use crate::process::{contains_any, matches_any_contained};
use vstd::prelude::*;

verus! {

pub const DEFAULT_BEAMNG_PORT: u16 = 4444;
pub const OUTGAUGE_PACKET_SIZE: usize = 92;
pub const MAX_PACKET_SIZE: usize = 256;
pub const DEFAULT_UPDATE_RATE_MS: u64 = 16;

pub const OFF_SPEED: usize = 12;
pub const OFF_RPM: usize = 16;
pub const OFF_GEAR: usize = 10;
pub const OFF_THROTTLE: usize = 48;
pub const OFF_BRAKE: usize = 52;
pub const OFF_CLUTCH: usize = 56;

/// The fields of an OutGauge packet; single-precision values as bit
/// patterns, non-finite ones read as `+0.0`.
#[derive(Debug, Clone, Copy, PartialEq, Eq, Structural)]
pub struct OutGaugePacket {
    pub speed_bits: u32,
    pub rpm_bits: u32,
    pub gear: i8,
    pub throttle_bits: u32,
    pub brake_bits: u32,
    pub clutch_bits: u32,
}

/// OutGauge gear byte to the normalized gear: 0 reverse (-1), 1 neutral (0),
/// `g` the gear `g - 1`, taken as a signed byte.
pub open spec fn outgauge_gear(raw: u8) -> i8 {
    if raw == 0 {
        -1i8
    } else if raw == 1 {
        0i8
    } else {
        wrap_i8((raw - 1) as u8)
    }
}

fn gear_from_byte(raw: u8) -> (r: i8)
    ensures
        r == outgauge_gear(raw),
{
    if raw == 0 {
        -1
    } else if raw == 1 {
        0
    } else {
        crate::bytes::u8_to_i8(raw - 1)
    }
}

/// The fields of a buffer of at least 92 bytes.
pub open spec fn outgauge_of(d: Seq<u8>) -> OutGaugePacket {
    OutGaugePacket {
        speed_bits: finite_or_zero(le_u32(d, OFF_SPEED as int) as u32),
        rpm_bits: finite_or_zero(le_u32(d, OFF_RPM as int) as u32),
        gear: outgauge_gear(d[OFF_GEAR as int]),
        throttle_bits: finite_or_zero(le_u32(d, OFF_THROTTLE as int) as u32),
        brake_bits: finite_or_zero(le_u32(d, OFF_BRAKE as int) as u32),
        clutch_bits: finite_or_zero(le_u32(d, OFF_CLUTCH as int) as u32),
    }
}

/// Parse an OutGauge packet of at least 92 bytes.
pub fn parse_outgauge_packet(data: &[u8]) -> (r: Result<OutGaugePacket, TelemetryError>)
    ensures
        r == (if data@.len() < OUTGAUGE_PACKET_SIZE {
            Err(TelemetryError::TooShort { needed: OUTGAUGE_PACKET_SIZE, actual: data@.len() as usize })
        } else {
            Ok(outgauge_of(data@))
        }),
{
    if data.len() < OUTGAUGE_PACKET_SIZE {
        return Err(TelemetryError::TooShort { needed: OUTGAUGE_PACKET_SIZE, actual: data.len() });
    }
    Ok(OutGaugePacket {
        speed_bits: read_float_bits_finite(data, OFF_SPEED),
        rpm_bits: read_float_bits_finite(data, OFF_RPM),
        gear: gear_from_byte(data[OFF_GEAR]),
        throttle_bits: read_float_bits_finite(data, OFF_THROTTLE),
        brake_bits: read_float_bits_finite(data, OFF_BRAKE),
        clutch_bits: read_float_bits_finite(data, OFF_CLUTCH),
    })
}

/// The executable names BeamNG.drive runs under.
pub open spec fn beamng_process_names() -> Seq<&'static str> {
    seq!["beamng.drive.x64.exe", "beamng.drive.exe"]
}

/// Whether a running process's executable name is BeamNG.drive's.
pub fn is_beamng_process_name(exe_name: &[u8]) -> (r: bool)
    ensures
        r == matches_any_contained(exe_name@, beamng_process_names()),
{
    let names: [&str; 2] = ["beamng.drive.x64.exe", "beamng.drive.exe"];
    assert(names@ =~= beamng_process_names());
    contains_any(exe_name, names.as_slice())
}

/// BeamNG.drive OutGauge adapter configuration.
#[derive(Debug, Clone, Copy, PartialEq, Eq, Structural)]
pub struct BeamNGAdapter {
    pub bind_port: u16,
    pub update_rate_ms: u64,
}

impl BeamNGAdapter {
    pub fn new() -> (r: Self)
        ensures
            r.bind_port == DEFAULT_BEAMNG_PORT,
            r.update_rate_ms == DEFAULT_UPDATE_RATE_MS,
    {
        BeamNGAdapter { bind_port: DEFAULT_BEAMNG_PORT, update_rate_ms: DEFAULT_UPDATE_RATE_MS }
    }

    pub fn with_port(self, port: u16) -> (r: Self)
        ensures
            r == (BeamNGAdapter { bind_port: port, ..self }),
    {
        BeamNGAdapter { bind_port: port, ..self }
    }

    pub fn game_id(&self) -> (r: &'static str)
        ensures
            r@ == "beamng_drive"@,
    {
        "beamng_drive"
    }

    pub fn expected_update_rate_ms(&self) -> (r: u64)
        ensures
            r == self.update_rate_ms,
    {
        self.update_rate_ms
    }

    pub fn normalize(&self, raw: &[u8]) -> (r: Result<OutGaugePacket, TelemetryError>)
        ensures
            r == (if raw@.len() < OUTGAUGE_PACKET_SIZE {
                Err(TelemetryError::TooShort { needed: OUTGAUGE_PACKET_SIZE, actual: raw@.len() as usize })
            } else {
                Ok(outgauge_of(raw@))
            }),
    {
        parse_outgauge_packet(raw)
    }
}

} // verus!
