//! Assetto Corsa (original) Remote Telemetry UDP (port 9996).
//!
//! A three-step handshake (handshake, response, subscribe) precedes the
//! update stream; each update is an `RTCarInfo` record of 328 bytes,
//! little-endian and naturally aligned.
use crate::bytes::{as_i32, finite_or_zero, i32_bits, le_u32, lemma_le_u32_of, read_float_bits_finite, read_i32_le, u32_le_bytes};
use crate::error::TelemetryError;
use crate::process::{equals_any, matches_any_exactly};
use vstd::prelude::*;

verus! {

pub const DEFAULT_AC_PORT: u16 = 9996;
pub const AC_RTCARINFO_SIZE: usize = 328;
pub const MAX_PACKET_SIZE: usize = 512;
pub const DEFAULT_UPDATE_RATE_MS: u64 = 16;

/// Handshake operation: ask for the session description.
pub const OP_HANDSHAKE: i32 = 0;
/// Handshake operation: subscribe to car updates.
pub const OP_SUBSCRIBE_UPDATE: i32 = 1;

pub const OFF_SPEED_KMH: usize = 8;
pub const OFF_SPEED_MS: usize = 16;
pub const OFF_ABS_IN_ACTION: usize = 21;
pub const OFF_TC_IN_ACTION: usize = 22;
pub const OFF_IN_PIT: usize = 24;
pub const OFF_ENGINE_LIMITER: usize = 25;
pub const OFF_ACCG_VERTICAL: usize = 28;
pub const OFF_ACCG_HORIZONTAL: usize = 32;
pub const OFF_ACCG_FRONTAL: usize = 36;
pub const OFF_LAP_TIME: usize = 40;
pub const OFF_LAST_LAP: usize = 44;
pub const OFF_BEST_LAP: usize = 48;
pub const OFF_LAP_COUNT: usize = 52;
pub const OFF_GAS: usize = 56;
pub const OFF_BRAKE: usize = 60;
pub const OFF_CLUTCH: usize = 64;
pub const OFF_RPM: usize = 68;
pub const OFF_STEER: usize = 72;
pub const OFF_GEAR: usize = 76;
pub const OFF_SLIP_ANGLE_FL: usize = 100;
pub const OFF_SLIP_RATIO_FL: usize = 132;

/// The fields of an `RTCarInfo` update that the adapter uses.
/// Single-precision values are bit patterns, non-finite ones read as `+0.0`;
/// lap times in milliseconds and the lap count are present only when
/// strictly positive.
#[derive(Debug, Clone, Copy, PartialEq, Eq, Structural)]
pub struct AcCarInfo {
    pub speed_ms_bits: u32,
    pub rpm_bits: u32,
    pub steer_bits: u32,
    pub gas_bits: u32,
    pub brake_bits: u32,
    pub clutch_bits: u32,
    pub gear: i8,
    pub vertical_g_bits: u32,
    pub lateral_g_bits: u32,
    pub longitudinal_g_bits: u32,
    pub abs_active: bool,
    pub traction_control: bool,
    pub in_pits: bool,
    pub engine_limiter: bool,
    pub current_lap_ms: Option<u32>,
    pub last_lap_ms: Option<u32>,
    pub best_lap_ms: Option<u32>,
    pub lap: Option<u16>,
    pub slip_angle_fl_bits: u32,
    pub slip_angle_fr_bits: u32,
    pub slip_angle_rl_bits: u32,
    pub slip_angle_rr_bits: u32,
    pub slip_ratio_fl_bits: u32,
    pub slip_ratio_fr_bits: u32,
    pub slip_ratio_rl_bits: u32,
    pub slip_ratio_rr_bits: u32,
}

/// AC gear to the normalized gear: 0 reverse (-1), 1 neutral (0), `g` the
/// gear `g - 1` clamped to a signed byte.
pub open spec fn ac_gear(g: int) -> i8 {
    if g == 0 {
        -1i8
    } else if g == 1 {
        0i8
    } else if g - 1 < -128 {
        -128i8
    } else if g - 1 > 127 {
        127i8
    } else {
        (g - 1) as i8
    }
}

fn gear_from_i32(g: i32) -> (r: i8)
    ensures
        r == ac_gear(g as int),
{
    if g == 0 {
        -1
    } else if g == 1 {
        0
    } else if g < -127 {
        -128
    } else if g > 128 {
        127
    } else {
        (g - 1) as i8
    }
}

/// A millisecond count kept only when strictly positive.
pub open spec fn positive_ms(v: int) -> Option<u32> {
    if v > 0 {
        Some(v as u32)
    } else {
        None
    }
}

fn positive_ms_exec(v: i32) -> (r: Option<u32>)
    ensures
        r == positive_ms(v as int),
{
    if v > 0 {
        Some(v as u32)
    } else {
        None
    }
}

/// A lap count kept only when strictly positive, capped at `u16::MAX`.
pub open spec fn lap_of_count(v: int) -> Option<u16> {
    if v <= 0 {
        None
    } else if v > 65535 {
        Some(65535u16)
    } else {
        Some(v as u16)
    }
}

fn lap_of_count_exec(v: i32) -> (r: Option<u16>)
    ensures
        r == lap_of_count(v as int),
{
    if v <= 0 {
        None
    } else if v > 65535 {
        Some(65535)
    } else {
        Some(v as u16)
    }
}

pub open spec fn bits_at(d: Seq<u8>, off: int) -> u32 {
    finite_or_zero(le_u32(d, off) as u32)
}

pub open spec fn i32_at(d: Seq<u8>, off: int) -> int {
    as_i32(le_u32(d, off))
}

/// The update record of a buffer of at least 328 bytes.
pub open spec fn ac_car_info_of(d: Seq<u8>) -> AcCarInfo {
    AcCarInfo {
        speed_ms_bits: bits_at(d, OFF_SPEED_MS as int),
        rpm_bits: bits_at(d, OFF_RPM as int),
        steer_bits: bits_at(d, OFF_STEER as int),
        gas_bits: bits_at(d, OFF_GAS as int),
        brake_bits: bits_at(d, OFF_BRAKE as int),
        clutch_bits: bits_at(d, OFF_CLUTCH as int),
        gear: ac_gear(i32_at(d, OFF_GEAR as int)),
        vertical_g_bits: bits_at(d, OFF_ACCG_VERTICAL as int),
        lateral_g_bits: bits_at(d, OFF_ACCG_HORIZONTAL as int),
        longitudinal_g_bits: bits_at(d, OFF_ACCG_FRONTAL as int),
        abs_active: d[OFF_ABS_IN_ACTION as int] != 0,
        traction_control: d[OFF_TC_IN_ACTION as int] != 0,
        in_pits: d[OFF_IN_PIT as int] != 0,
        engine_limiter: d[OFF_ENGINE_LIMITER as int] != 0,
        current_lap_ms: positive_ms(i32_at(d, OFF_LAP_TIME as int)),
        last_lap_ms: positive_ms(i32_at(d, OFF_LAST_LAP as int)),
        best_lap_ms: positive_ms(i32_at(d, OFF_BEST_LAP as int)),
        lap: lap_of_count(i32_at(d, OFF_LAP_COUNT as int)),
        slip_angle_fl_bits: bits_at(d, OFF_SLIP_ANGLE_FL as int),
        slip_angle_fr_bits: bits_at(d, OFF_SLIP_ANGLE_FL + 4),
        slip_angle_rl_bits: bits_at(d, OFF_SLIP_ANGLE_FL + 8),
        slip_angle_rr_bits: bits_at(d, OFF_SLIP_ANGLE_FL + 12),
        slip_ratio_fl_bits: bits_at(d, OFF_SLIP_RATIO_FL as int),
        slip_ratio_fr_bits: bits_at(d, OFF_SLIP_RATIO_FL + 4),
        slip_ratio_rl_bits: bits_at(d, OFF_SLIP_RATIO_FL + 8),
        slip_ratio_rr_bits: bits_at(d, OFF_SLIP_RATIO_FL + 12),
    }
}

/// Parse an `RTCarInfo` update of at least 328 bytes.
pub fn parse_ac_packet(data: &[u8]) -> (r: Result<AcCarInfo, TelemetryError>)
    ensures
        r == (if data@.len() < AC_RTCARINFO_SIZE {
            Err(TelemetryError::TooShort { needed: AC_RTCARINFO_SIZE, actual: data@.len() as usize })
        } else {
            Ok(ac_car_info_of(data@))
        }),
{
    if data.len() < AC_RTCARINFO_SIZE {
        return Err(TelemetryError::TooShort { needed: AC_RTCARINFO_SIZE, actual: data.len() });
    }
    let info = AcCarInfo {
        speed_ms_bits: read_float_bits_finite(data, OFF_SPEED_MS),
        rpm_bits: read_float_bits_finite(data, OFF_RPM),
        steer_bits: read_float_bits_finite(data, OFF_STEER),
        gas_bits: read_float_bits_finite(data, OFF_GAS),
        brake_bits: read_float_bits_finite(data, OFF_BRAKE),
        clutch_bits: read_float_bits_finite(data, OFF_CLUTCH),
        gear: gear_from_i32(read_i32_le(data, OFF_GEAR)),
        vertical_g_bits: read_float_bits_finite(data, OFF_ACCG_VERTICAL),
        lateral_g_bits: read_float_bits_finite(data, OFF_ACCG_HORIZONTAL),
        longitudinal_g_bits: read_float_bits_finite(data, OFF_ACCG_FRONTAL),
        abs_active: data[OFF_ABS_IN_ACTION] != 0,
        traction_control: data[OFF_TC_IN_ACTION] != 0,
        in_pits: data[OFF_IN_PIT] != 0,
        engine_limiter: data[OFF_ENGINE_LIMITER] != 0,
        current_lap_ms: positive_ms_exec(read_i32_le(data, OFF_LAP_TIME)),
        last_lap_ms: positive_ms_exec(read_i32_le(data, OFF_LAST_LAP)),
        best_lap_ms: positive_ms_exec(read_i32_le(data, OFF_BEST_LAP)),
        lap: lap_of_count_exec(read_i32_le(data, OFF_LAP_COUNT)),
        slip_angle_fl_bits: read_float_bits_finite(data, OFF_SLIP_ANGLE_FL),
        slip_angle_fr_bits: read_float_bits_finite(data, OFF_SLIP_ANGLE_FL + 4),
        slip_angle_rl_bits: read_float_bits_finite(data, OFF_SLIP_ANGLE_FL + 8),
        slip_angle_rr_bits: read_float_bits_finite(data, OFF_SLIP_ANGLE_FL + 12),
        slip_ratio_fl_bits: read_float_bits_finite(data, OFF_SLIP_RATIO_FL),
        slip_ratio_fr_bits: read_float_bits_finite(data, OFF_SLIP_RATIO_FL + 4),
        slip_ratio_rl_bits: read_float_bits_finite(data, OFF_SLIP_RATIO_FL + 8),
        slip_ratio_rr_bits: read_float_bits_finite(data, OFF_SLIP_RATIO_FL + 12),
    };
    Ok(info)
}

/// The 12-byte handshake datagram: identifier 1, version 1, operation.
pub open spec fn handshake_bytes(operation_id: i32) -> Seq<u8> {
    u32_le_bytes(1) + u32_le_bytes(1) + u32_le_bytes(i32_bits(operation_id as int))
}

/// Build the handshake datagram for `operation_id`.
pub fn build_handshake_packet(operation_id: i32) -> (r: [u8; 12])
    ensures
        r@ == handshake_bytes(operation_id),
{
    let op = crate::bytes::i32_to_u32(operation_id);
    let r: [u8; 12] = [
        1, 0, 0, 0,
        1, 0, 0, 0,
        (op % 256) as u8, (op / 256 % 256) as u8, (op / 65536 % 256) as u8, (op / 16777216) as u8,
    ];
    assert(r@ =~= handshake_bytes(operation_id));
    r
}

/// The executable name Assetto Corsa runs under.
pub open spec fn ac_process_names() -> Seq<&'static str> {
    seq!["acs.exe"]
}

/// Whether a running process's executable name is Assetto Corsa's.
pub fn is_ac_process_name(exe_name: &[u8]) -> (r: bool)
    ensures
        r == matches_any_exactly(exe_name@, ac_process_names()),
{
    let names: [&str; 1] = ["acs.exe"];
    assert(names@ =~= ac_process_names());
    equals_any(exe_name, names.as_slice())
}

/// Assetto Corsa adapter configuration.
#[derive(Debug, Clone, Copy, PartialEq, Eq, Structural)]
pub struct AssettoCorsaAdapter {
    pub bind_port: u16,
    pub update_rate_ms: u64,
}

impl AssettoCorsaAdapter {
    pub fn new() -> (r: Self)
        ensures
            r.bind_port == DEFAULT_AC_PORT,
            r.update_rate_ms == DEFAULT_UPDATE_RATE_MS,
    {
        AssettoCorsaAdapter { bind_port: DEFAULT_AC_PORT, update_rate_ms: DEFAULT_UPDATE_RATE_MS }
    }

    pub fn with_port(self, port: u16) -> (r: Self)
        ensures
            r == (AssettoCorsaAdapter { bind_port: port, ..self }),
    {
        AssettoCorsaAdapter { bind_port: port, ..self }
    }

    pub fn game_id(&self) -> (r: &'static str)
        ensures
            r@ == "assetto_corsa"@,
    {
        "assetto_corsa"
    }

    pub fn expected_update_rate_ms(&self) -> (r: u64)
        ensures
            r == self.update_rate_ms,
    {
        self.update_rate_ms
    }

    pub fn normalize(&self, raw: &[u8]) -> (r: Result<AcCarInfo, TelemetryError>)
        ensures
            r == (if raw@.len() < AC_RTCARINFO_SIZE {
                Err(TelemetryError::TooShort { needed: AC_RTCARINFO_SIZE, actual: raw@.len() as usize })
            } else {
                Ok(ac_car_info_of(raw@))
            }),
    {
        parse_ac_packet(raw)
    }
}


/// A handshake datagram reads back as identifier 1, version 1 and the
/// operation it was built for.
pub proof fn lemma_handshake_roundtrip(operation_id: i32)
    ensures
        handshake_bytes(operation_id).len() == 12,
        i32_at(handshake_bytes(operation_id), 0) == 1,
        i32_at(handshake_bytes(operation_id), 4) == 1,
        i32_at(handshake_bytes(operation_id), 8) == operation_id as int,
{
    let d = handshake_bytes(operation_id);
    let bits = i32_bits(operation_id as int);
    assert(0 <= bits < 0x1_0000_0000);
    let u = bits as u32;
    assert(u32_le_bytes(u as int) =~= d.subrange(8, 12));
    lemma_le_u32_of(d, 8, u);
    assert(u32_le_bytes(1) =~= d.subrange(0, 4));
    assert(u32_le_bytes(1) =~= d.subrange(4, 8));
    assert(u32_le_bytes(1u32 as int) =~= d.subrange(0, 4));
    lemma_le_u32_of(d, 0, 1u32);
    lemma_le_u32_of(d, 4, 1u32);
}

} // verus!
