//! Euro Truck Simulator 2 / American Truck Simulator telemetry, read from the
//! SCS Telemetry SDK shared memory (`Local\SCSTelemetry`, 512 bytes).
//!
//! Layout (SDK 1.14): version (u32 at 0), then single-precision speed in m/s
//! (4) and engine rpm (8), the gear (i32 at 12: positive forward, negative
//! reverse, 0 neutral), fuel ratio (16) and engine load (20).
use crate::bytes::{as_i32, le_u32, read_i32_le, read_u32_le};
use crate::error::TelemetryError;
use crate::process::{equals_lowercased, lowercase_equals};
use vstd::prelude::*;
use vstd::string::StringSliceAdditionalSpecFns;

verus! {

pub const SCS_SHARED_MEMORY_SIZE: usize = 512;
pub const OFF_VERSION: usize = 0;
pub const OFF_SPEED_MS: usize = 4;
pub const OFF_ENGINE_RPM: usize = 8;
pub const OFF_GEAR: usize = 12;
pub const OFF_FUEL_RATIO: usize = 16;
pub const OFF_ENGINE_LOAD: usize = 20;
/// The smallest snapshot that holds every field read.
pub const SCS_MIN_SIZE: usize = 24;
pub const SCS_EXPECTED_VERSION: u32 = 1;
pub const DEFAULT_UPDATE_RATE_MS: u64 = 50;

/// Which SCS game the adapter targets.
#[derive(Debug, Clone, Copy, PartialEq, Eq, Structural)]
pub enum Ets2Variant {
    /// Euro Truck Simulator 2
    Ets2,
    /// American Truck Simulator
    Ats,
}

impl Ets2Variant {
    pub open spec fn spec_game_id(self) -> Seq<char> {
        match self {
            Ets2Variant::Ets2 => "ets2"@,
            Ets2Variant::Ats => "ats"@,
        }
    }

    pub fn game_id(self) -> (r: &'static str)
        ensures
            r@ == self.spec_game_id(),
    {
        match self {
            Ets2Variant::Ets2 => "ets2",
            Ets2Variant::Ats => "ats",
        }
    }

    /// The executable the game runs under.
    pub fn process_name(self) -> (r: &'static str)
        ensures
            self is Ets2 ==> r == "eurotrucks2.exe",
            self is Ats ==> r == "amtrucks.exe",
    {
        match self {
            Ets2Variant::Ets2 => "eurotrucks2.exe",
            Ets2Variant::Ats => "amtrucks.exe",
        }
    }
}

/// The fields of a snapshot; single-precision values as their bit patterns,
/// exactly as stored.
#[derive(Debug, Clone, Copy, PartialEq, Eq, Structural)]
pub struct ScsSnapshot {
    pub speed_ms_bits: u32,
    pub rpm_bits: u32,
    pub gear: i8,
    pub fuel_ratio_bits: u32,
    pub engine_load_bits: u32,
}

/// The SDK gear clamped to reverse (-1) .. twelfth (12).
pub open spec fn scs_gear(g: int) -> i8 {
    if g < -1 {
        -1i8
    } else if g > 12 {
        12i8
    } else {
        g as i8
    }
}

fn gear_from_i32(g: i32) -> (r: i8)
    ensures
        r == scs_gear(g as int),
{
    if g < -1 {
        -1
    } else if g > 12 {
        12
    } else {
        g as i8
    }
}

/// The fields of a snapshot of at least 24 bytes.
pub open spec fn scs_snapshot_of(d: Seq<u8>) -> ScsSnapshot {
    ScsSnapshot {
        speed_ms_bits: le_u32(d, OFF_SPEED_MS as int) as u32,
        rpm_bits: le_u32(d, OFF_ENGINE_RPM as int) as u32,
        gear: scs_gear(as_i32(le_u32(d, OFF_GEAR as int))),
        fuel_ratio_bits: le_u32(d, OFF_FUEL_RATIO as int) as u32,
        engine_load_bits: le_u32(d, OFF_ENGINE_LOAD as int) as u32,
    }
}

/// What parsing a snapshot gives: too short under 24 bytes, a version other
/// than 1 refused, otherwise the fields.
pub open spec fn scs_result(d: Seq<u8>) -> Result<ScsSnapshot, TelemetryError> {
    if d.len() < SCS_MIN_SIZE {
        Err(TelemetryError::TooShort { needed: SCS_MIN_SIZE, actual: d.len() as usize })
    } else if le_u32(d, OFF_VERSION as int) != SCS_EXPECTED_VERSION {
        Err(TelemetryError::UnexpectedVersion(le_u32(d, OFF_VERSION as int) as u32))
    } else {
        Ok(scs_snapshot_of(d))
    }
}

/// Parse a raw SCS Telemetry SDK memory snapshot.
pub fn parse_scs_packet(data: &[u8]) -> (r: Result<ScsSnapshot, TelemetryError>)
    ensures
        r == scs_result(data@),
{
    if data.len() < SCS_MIN_SIZE {
        return Err(TelemetryError::TooShort { needed: SCS_MIN_SIZE, actual: data.len() });
    }
    let version = read_u32_le(data, OFF_VERSION);
    if version != SCS_EXPECTED_VERSION {
        return Err(TelemetryError::UnexpectedVersion(version));
    }
    Ok(ScsSnapshot {
        speed_ms_bits: read_u32_le(data, OFF_SPEED_MS),
        rpm_bits: read_u32_le(data, OFF_ENGINE_RPM),
        gear: gear_from_i32(read_i32_le(data, OFF_GEAR)),
        fuel_ratio_bits: read_u32_le(data, OFF_FUEL_RATIO),
        engine_load_bits: read_u32_le(data, OFF_ENGINE_LOAD),
    })
}

/// ETS2 / ATS adapter configuration.
#[derive(Debug, Clone, Copy, PartialEq, Eq, Structural)]
pub struct Ets2Adapter {
    pub variant: Ets2Variant,
    pub update_rate_ms: u64,
}

impl Ets2Adapter {
    /// An adapter for Euro Truck Simulator 2.
    pub fn new() -> (r: Self)
        ensures
            r.variant == Ets2Variant::Ets2,
            r.update_rate_ms == DEFAULT_UPDATE_RATE_MS,
    {
        Self::with_variant(Ets2Variant::Ets2)
    }

    /// An adapter for the given SCS game.
    pub fn with_variant(variant: Ets2Variant) -> (r: Self)
        ensures
            r.variant == variant,
            r.update_rate_ms == DEFAULT_UPDATE_RATE_MS,
    {
        Ets2Adapter { variant, update_rate_ms: DEFAULT_UPDATE_RATE_MS }
    }

    pub fn game_id(&self) -> (r: &'static str)
        ensures
            r@ == self.variant.spec_game_id(),
    {
        self.variant.game_id()
    }

    pub fn expected_update_rate_ms(&self) -> (r: u64)
        ensures
            r == self.update_rate_ms,
    {
        self.update_rate_ms
    }

    /// Whether a running process's executable name is the targeted game's.
    pub fn is_game_process_name(&self, exe_name: &[u8]) -> (r: bool)
        ensures
            self.variant is Ets2 ==> r == equals_lowercased(exe_name@, "eurotrucks2.exe".spec_bytes()),
            self.variant is Ats ==> r == equals_lowercased(exe_name@, "amtrucks.exe".spec_bytes()),
    {
        lowercase_equals(exe_name, self.variant.process_name().as_bytes())
    }

    pub fn normalize(&self, raw: &[u8]) -> (r: Result<ScsSnapshot, TelemetryError>)
        ensures
            r == scs_result(raw@),
    {
        parse_scs_packet(raw)
    }
}

} // verus!
