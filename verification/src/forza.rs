//! Forza Motorsport / Forza Horizon "Data Out" UDP telemetry (port 5300).
//!
//! Two little-endian formats are told apart by length: Sled (232 bytes, FM7
//! and earlier: physics only) and CarDash (311 bytes, FM8, FH4, FH5: the
//! Sled fields followed by dashboard and driver-input fields). A packet whose
//! `IsRaceOn` word is zero carries no telemetry.
use crate::bytes::{as_i32, le_u16, le_u32, read_i32_le, read_u16_le, read_u32_le, u8_to_i8, wrap_i8};
use crate::error::TelemetryError;
use crate::process::{contains_any, matches_any_contained};
use vstd::prelude::*;

verus! {

pub const DEFAULT_FORZA_PORT: u16 = 5300;
pub const FORZA_SLED_SIZE: usize = 232;
pub const FORZA_CARDASH_SIZE: usize = 311;
pub const MAX_PACKET_SIZE: usize = 512;
pub const DEFAULT_UPDATE_RATE_MS: u64 = 16;

pub const OFF_IS_RACE_ON: usize = 0;
pub const OFF_ENGINE_MAX_RPM: usize = 8;
pub const OFF_ENGINE_IDLE_RPM: usize = 12;
pub const OFF_CURRENT_RPM: usize = 16;
pub const OFF_ACCEL_X: usize = 20;
pub const OFF_ACCEL_Y: usize = 24;
pub const OFF_ACCEL_Z: usize = 28;
pub const OFF_VEL_X: usize = 32;
pub const OFF_VEL_Y: usize = 36;
pub const OFF_VEL_Z: usize = 40;
pub const OFF_WHEEL_SPEED_FL: usize = 100;
pub const OFF_WHEEL_SPEED_FR: usize = 104;
pub const OFF_WHEEL_SPEED_RL: usize = 108;
pub const OFF_WHEEL_SPEED_RR: usize = 112;
pub const OFF_SLIP_ANGLE_FL: usize = 164;
pub const OFF_SLIP_ANGLE_FR: usize = 168;
pub const OFF_SLIP_ANGLE_RL: usize = 172;
pub const OFF_SLIP_ANGLE_RR: usize = 176;
pub const OFF_SUSP_TRAVEL_FL: usize = 196;
pub const OFF_SUSP_TRAVEL_FR: usize = 200;
pub const OFF_SUSP_TRAVEL_RL: usize = 204;
pub const OFF_SUSP_TRAVEL_RR: usize = 208;

pub const OFF_DASH_SPEED: usize = 244;
pub const OFF_DASH_TIRE_TEMP_FL: usize = 256;
pub const OFF_DASH_TIRE_TEMP_FR: usize = 260;
pub const OFF_DASH_TIRE_TEMP_RL: usize = 264;
pub const OFF_DASH_TIRE_TEMP_RR: usize = 268;
pub const OFF_DASH_FUEL: usize = 276;
pub const OFF_DASH_BEST_LAP: usize = 284;
pub const OFF_DASH_LAST_LAP: usize = 288;
pub const OFF_DASH_CUR_LAP: usize = 292;
pub const OFF_DASH_LAP_NUMBER: usize = 300;
pub const OFF_DASH_RACE_POS: usize = 302;
pub const OFF_DASH_ACCEL: usize = 303;
pub const OFF_DASH_BRAKE: usize = 304;
pub const OFF_DASH_CLUTCH: usize = 305;
pub const OFF_DASH_GEAR: usize = 307;
pub const OFF_DASH_STEER: usize = 308;

/// The packet format a datagram length announces.
#[derive(Debug, Clone, Copy, PartialEq, Eq, Structural)]
pub enum ForzaPacketFormat {
    Sled,
    CarDash,
    Unknown,
}

pub open spec fn format_of_len(len: int) -> ForzaPacketFormat {
    if len == FORZA_SLED_SIZE {
        ForzaPacketFormat::Sled
    } else if len == FORZA_CARDASH_SIZE {
        ForzaPacketFormat::CarDash
    } else {
        ForzaPacketFormat::Unknown
    }
}

/// The format of a datagram of `len` bytes.
pub fn detect_format(len: usize) -> (r: ForzaPacketFormat)
    ensures
        r == format_of_len(len as int),
{
    if len == FORZA_SLED_SIZE {
        ForzaPacketFormat::Sled
    } else if len == FORZA_CARDASH_SIZE {
        ForzaPacketFormat::CarDash
    } else {
        ForzaPacketFormat::Unknown
    }
}

/// Dashboard gear byte to the normalized gear: 0 reverse (-1), 1 neutral (0),
/// `g` the gear `g - 1`, taken as a signed byte.
pub open spec fn forza_gear(raw: u8) -> i8 {
    if raw == 0 {
        -1i8
    } else if raw == 1 {
        0i8
    } else {
        wrap_i8((raw - 1) as u8)
    }
}

fn gear_from_byte(raw: u8) -> (r: i8)
    ensures
        r == forza_gear(raw),
{
    if raw == 0 {
        -1
    } else if raw == 1 {
        0
    } else {
        u8_to_i8(raw - 1)
    }
}

/// The physics fields common to both formats, as bit patterns exactly as sent.
#[derive(Debug, Clone, Copy, PartialEq, Eq, Structural)]
pub struct ForzaSled {
    pub engine_max_rpm_bits: u32,
    pub current_rpm_bits: u32,
    pub accel_x_bits: u32,
    pub accel_z_bits: u32,
    pub vel_x_bits: u32,
    pub vel_y_bits: u32,
    pub vel_z_bits: u32,
    pub wheel_speed_fl_bits: u32,
    pub wheel_speed_fr_bits: u32,
    pub wheel_speed_rl_bits: u32,
    pub wheel_speed_rr_bits: u32,
    pub slip_angle_fl_bits: u32,
    pub slip_angle_fr_bits: u32,
    pub slip_angle_rl_bits: u32,
    pub slip_angle_rr_bits: u32,
    pub susp_travel_fl_bits: u32,
    pub susp_travel_fr_bits: u32,
    pub susp_travel_rl_bits: u32,
    pub susp_travel_rr_bits: u32,
}

pub open spec fn forza_sled_of(d: Seq<u8>) -> ForzaSled {
    ForzaSled {
        engine_max_rpm_bits: le_u32(d, (OFF_ENGINE_MAX_RPM) as int) as u32,
        current_rpm_bits: le_u32(d, (OFF_CURRENT_RPM) as int) as u32,
        accel_x_bits: le_u32(d, (OFF_ACCEL_X) as int) as u32,
        accel_z_bits: le_u32(d, (OFF_ACCEL_Z) as int) as u32,
        vel_x_bits: le_u32(d, (OFF_VEL_X) as int) as u32,
        vel_y_bits: le_u32(d, (OFF_VEL_Y) as int) as u32,
        vel_z_bits: le_u32(d, (OFF_VEL_Z) as int) as u32,
        wheel_speed_fl_bits: le_u32(d, (OFF_WHEEL_SPEED_FL) as int) as u32,
        wheel_speed_fr_bits: le_u32(d, (OFF_WHEEL_SPEED_FR) as int) as u32,
        wheel_speed_rl_bits: le_u32(d, (OFF_WHEEL_SPEED_RL) as int) as u32,
        wheel_speed_rr_bits: le_u32(d, (OFF_WHEEL_SPEED_RR) as int) as u32,
        slip_angle_fl_bits: le_u32(d, (OFF_SLIP_ANGLE_FL) as int) as u32,
        slip_angle_fr_bits: le_u32(d, (OFF_SLIP_ANGLE_FR) as int) as u32,
        slip_angle_rl_bits: le_u32(d, (OFF_SLIP_ANGLE_RL) as int) as u32,
        slip_angle_rr_bits: le_u32(d, (OFF_SLIP_ANGLE_RR) as int) as u32,
        susp_travel_fl_bits: le_u32(d, (OFF_SUSP_TRAVEL_FL) as int) as u32,
        susp_travel_fr_bits: le_u32(d, (OFF_SUSP_TRAVEL_FR) as int) as u32,
        susp_travel_rl_bits: le_u32(d, (OFF_SUSP_TRAVEL_RL) as int) as u32,
        susp_travel_rr_bits: le_u32(d, (OFF_SUSP_TRAVEL_RR) as int) as u32,
    }
}

/// The dashboard fields of a CarDash packet: single-precision values as bit
/// patterns exactly as sent, pedal bytes 0-255, the normalized gear and the
/// signed steering byte.
#[derive(Debug, Clone, Copy, PartialEq, Eq, Structural)]
pub struct ForzaDash {
    pub speed_bits: u32,
    pub tire_temp_fl_bits: u32,
    pub tire_temp_fr_bits: u32,
    pub tire_temp_rl_bits: u32,
    pub tire_temp_rr_bits: u32,
    pub fuel_bits: u32,
    pub best_lap_bits: u32,
    pub last_lap_bits: u32,
    pub current_lap_bits: u32,
    pub lap_number: u16,
    pub race_position: u8,
    pub accel: u8,
    pub brake: u8,
    pub clutch: u8,
    pub gear: i8,
    pub steer: i8,
}

pub open spec fn forza_dash_of(d: Seq<u8>) -> ForzaDash {
    ForzaDash {
        speed_bits: le_u32(d, (OFF_DASH_SPEED) as int) as u32,
        tire_temp_fl_bits: le_u32(d, (OFF_DASH_TIRE_TEMP_FL) as int) as u32,
        tire_temp_fr_bits: le_u32(d, (OFF_DASH_TIRE_TEMP_FR) as int) as u32,
        tire_temp_rl_bits: le_u32(d, (OFF_DASH_TIRE_TEMP_RL) as int) as u32,
        tire_temp_rr_bits: le_u32(d, (OFF_DASH_TIRE_TEMP_RR) as int) as u32,
        fuel_bits: le_u32(d, (OFF_DASH_FUEL) as int) as u32,
        best_lap_bits: le_u32(d, (OFF_DASH_BEST_LAP) as int) as u32,
        last_lap_bits: le_u32(d, (OFF_DASH_LAST_LAP) as int) as u32,
        current_lap_bits: le_u32(d, (OFF_DASH_CUR_LAP) as int) as u32,
        lap_number: le_u16(d, (OFF_DASH_LAP_NUMBER) as int) as u16,
        race_position: d[(OFF_DASH_RACE_POS) as int],
        accel: d[(OFF_DASH_ACCEL) as int],
        brake: d[(OFF_DASH_BRAKE) as int],
        clutch: d[(OFF_DASH_CLUTCH) as int],
        gear: forza_gear(d[OFF_DASH_GEAR as int]),
        steer: wrap_i8(d[OFF_DASH_STEER as int]),
    }
}

/// What one datagram carries.
#[derive(Debug, Clone, Copy, PartialEq, Eq, Structural)]
pub enum ForzaTelemetry {
    /// `IsRaceOn` is zero: no telemetry.
    RaceOff,
    Sled(ForzaSled),
    CarDash(ForzaSled, ForzaDash),
}

pub open spec fn race_on(d: Seq<u8>) -> bool {
    as_i32(le_u32(d, OFF_IS_RACE_ON as int)) != 0
}

fn parse_sled_common(data: &[u8]) -> (r: ForzaSled)
    requires
        data@.len() >= FORZA_SLED_SIZE,
    ensures
        r == forza_sled_of(data@),
{
    ForzaSled {
        engine_max_rpm_bits: read_u32_le(data, OFF_ENGINE_MAX_RPM),
        current_rpm_bits: read_u32_le(data, OFF_CURRENT_RPM),
        accel_x_bits: read_u32_le(data, OFF_ACCEL_X),
        accel_z_bits: read_u32_le(data, OFF_ACCEL_Z),
        vel_x_bits: read_u32_le(data, OFF_VEL_X),
        vel_y_bits: read_u32_le(data, OFF_VEL_Y),
        vel_z_bits: read_u32_le(data, OFF_VEL_Z),
        wheel_speed_fl_bits: read_u32_le(data, OFF_WHEEL_SPEED_FL),
        wheel_speed_fr_bits: read_u32_le(data, OFF_WHEEL_SPEED_FR),
        wheel_speed_rl_bits: read_u32_le(data, OFF_WHEEL_SPEED_RL),
        wheel_speed_rr_bits: read_u32_le(data, OFF_WHEEL_SPEED_RR),
        slip_angle_fl_bits: read_u32_le(data, OFF_SLIP_ANGLE_FL),
        slip_angle_fr_bits: read_u32_le(data, OFF_SLIP_ANGLE_FR),
        slip_angle_rl_bits: read_u32_le(data, OFF_SLIP_ANGLE_RL),
        slip_angle_rr_bits: read_u32_le(data, OFF_SLIP_ANGLE_RR),
        susp_travel_fl_bits: read_u32_le(data, OFF_SUSP_TRAVEL_FL),
        susp_travel_fr_bits: read_u32_le(data, OFF_SUSP_TRAVEL_FR),
        susp_travel_rl_bits: read_u32_le(data, OFF_SUSP_TRAVEL_RL),
        susp_travel_rr_bits: read_u32_le(data, OFF_SUSP_TRAVEL_RR),
    }
}

fn parse_dash(data: &[u8]) -> (r: ForzaDash)
    requires
        data@.len() >= FORZA_CARDASH_SIZE,
    ensures
        r == forza_dash_of(data@),
{
    ForzaDash {
        speed_bits: read_u32_le(data, OFF_DASH_SPEED),
        tire_temp_fl_bits: read_u32_le(data, OFF_DASH_TIRE_TEMP_FL),
        tire_temp_fr_bits: read_u32_le(data, OFF_DASH_TIRE_TEMP_FR),
        tire_temp_rl_bits: read_u32_le(data, OFF_DASH_TIRE_TEMP_RL),
        tire_temp_rr_bits: read_u32_le(data, OFF_DASH_TIRE_TEMP_RR),
        fuel_bits: read_u32_le(data, OFF_DASH_FUEL),
        best_lap_bits: read_u32_le(data, OFF_DASH_BEST_LAP),
        last_lap_bits: read_u32_le(data, OFF_DASH_LAST_LAP),
        current_lap_bits: read_u32_le(data, OFF_DASH_CUR_LAP),
        lap_number: read_u16_le(data, OFF_DASH_LAP_NUMBER),
        race_position: data[OFF_DASH_RACE_POS],
        accel: data[OFF_DASH_ACCEL],
        brake: data[OFF_DASH_BRAKE],
        clutch: data[OFF_DASH_CLUTCH],
        gear: gear_from_byte(data[OFF_DASH_GEAR]),
        steer: u8_to_i8(data[OFF_DASH_STEER]),
    }
}

/// What parsing a buffer as a Sled packet gives.
pub open spec fn sled_result(d: Seq<u8>) -> Result<ForzaTelemetry, TelemetryError> {
    if d.len() < FORZA_SLED_SIZE {
        Err(TelemetryError::TooShort { needed: FORZA_SLED_SIZE, actual: d.len() as usize })
    } else if !race_on(d) {
        Ok(ForzaTelemetry::RaceOff)
    } else {
        Ok(ForzaTelemetry::Sled(forza_sled_of(d)))
    }
}

/// What parsing a buffer as a CarDash packet gives.
pub open spec fn cardash_result(d: Seq<u8>) -> Result<ForzaTelemetry, TelemetryError> {
    if d.len() < FORZA_CARDASH_SIZE {
        Err(TelemetryError::TooShort { needed: FORZA_CARDASH_SIZE, actual: d.len() as usize })
    } else if !race_on(d) {
        Ok(ForzaTelemetry::RaceOff)
    } else {
        Ok(ForzaTelemetry::CarDash(forza_sled_of(d), forza_dash_of(d)))
    }
}

/// Where a Sled packet's values sit: each physics word at its fixed offset
/// (maximum rpm at 8, current rpm at 16, accelerations at 20 and 28,
/// velocities at 32..44, wheel speeds at 100..116, slip angles at 164..180,
/// suspension travel at 196..212), the bit pattern as sent.
pub proof fn lemma_sled_layout(d: Seq<u8>)
    ensures
        sled_result(d) matches Ok(ForzaTelemetry::Sled(s)) ==> (
            d.len() >= 232
            && s.engine_max_rpm_bits == le_u32(d, 8) as u32
            && s.current_rpm_bits == le_u32(d, 16) as u32
            && s.accel_x_bits == le_u32(d, 20) as u32
            && s.accel_z_bits == le_u32(d, 28) as u32
            && s.vel_x_bits == le_u32(d, 32) as u32
            && s.vel_y_bits == le_u32(d, 36) as u32
            && s.vel_z_bits == le_u32(d, 40) as u32
            && s.wheel_speed_fl_bits == le_u32(d, 100) as u32
            && s.wheel_speed_fr_bits == le_u32(d, 104) as u32
            && s.wheel_speed_rl_bits == le_u32(d, 108) as u32
            && s.wheel_speed_rr_bits == le_u32(d, 112) as u32
            && s.slip_angle_fl_bits == le_u32(d, 164) as u32
            && s.slip_angle_fr_bits == le_u32(d, 168) as u32
            && s.slip_angle_rl_bits == le_u32(d, 172) as u32
            && s.slip_angle_rr_bits == le_u32(d, 176) as u32
            && s.susp_travel_fl_bits == le_u32(d, 196) as u32
            && s.susp_travel_fr_bits == le_u32(d, 200) as u32
            && s.susp_travel_rl_bits == le_u32(d, 204) as u32
            && s.susp_travel_rr_bits == le_u32(d, 208) as u32
        ),
{
}

/// Where a CarDash packet's values sit: the Sled words at the same offsets,
/// then the dashboard: speed at 244, tyre temperatures at 256..272, fuel at
/// 276, best lap at 284, last lap at 288, current lap at 292, the u16 lap
/// number at 300, race position byte 302, accelerator 303, brake 304,
/// clutch 305, gear byte 307 and the signed steering byte 308.
pub proof fn lemma_cardash_layout(d: Seq<u8>)
    ensures
        cardash_result(d) matches Ok(ForzaTelemetry::CarDash(s, x)) ==> (
            d.len() >= 311
            && s.engine_max_rpm_bits == le_u32(d, 8) as u32
            && s.current_rpm_bits == le_u32(d, 16) as u32
            && s.accel_x_bits == le_u32(d, 20) as u32
            && s.accel_z_bits == le_u32(d, 28) as u32
            && s.vel_x_bits == le_u32(d, 32) as u32
            && s.vel_y_bits == le_u32(d, 36) as u32
            && s.vel_z_bits == le_u32(d, 40) as u32
            && s.wheel_speed_fl_bits == le_u32(d, 100) as u32
            && s.wheel_speed_fr_bits == le_u32(d, 104) as u32
            && s.wheel_speed_rl_bits == le_u32(d, 108) as u32
            && s.wheel_speed_rr_bits == le_u32(d, 112) as u32
            && s.slip_angle_fl_bits == le_u32(d, 164) as u32
            && s.slip_angle_fr_bits == le_u32(d, 168) as u32
            && s.slip_angle_rl_bits == le_u32(d, 172) as u32
            && s.slip_angle_rr_bits == le_u32(d, 176) as u32
            && s.susp_travel_fl_bits == le_u32(d, 196) as u32
            && s.susp_travel_fr_bits == le_u32(d, 200) as u32
            && s.susp_travel_rl_bits == le_u32(d, 204) as u32
            && s.susp_travel_rr_bits == le_u32(d, 208) as u32
            && x.speed_bits == le_u32(d, 244) as u32
            && x.tire_temp_fl_bits == le_u32(d, 256) as u32
            && x.tire_temp_fr_bits == le_u32(d, 260) as u32
            && x.tire_temp_rl_bits == le_u32(d, 264) as u32
            && x.tire_temp_rr_bits == le_u32(d, 268) as u32
            && x.fuel_bits == le_u32(d, 276) as u32
            && x.best_lap_bits == le_u32(d, 284) as u32
            && x.last_lap_bits == le_u32(d, 288) as u32
            && x.current_lap_bits == le_u32(d, 292) as u32
            && x.lap_number == d[300] as int + 256 * d[301] as int
            && x.race_position == d[302]
            && x.accel == d[303]
            && x.brake == d[304]
            && x.clutch == d[305]
            && (2 <= d[307] <= 128 ==> x.gear == d[307] as int - 1)
            && (d[307] == 1 ==> x.gear == 0)
            && (d[307] == 0 ==> x.gear == -1)
            && (d[308] < 128 ==> x.steer == d[308] as int)
            && (d[308] >= 128 ==> x.steer == d[308] as int - 256)
        ),
{
}

/// Parse a buffer as a Sled packet (at least 232 bytes).
pub fn parse_forza_sled(data: &[u8]) -> (r: Result<ForzaTelemetry, TelemetryError>)
    ensures
        r == sled_result(data@),
{
    if data.len() < FORZA_SLED_SIZE {
        return Err(TelemetryError::TooShort { needed: FORZA_SLED_SIZE, actual: data.len() });
    }
    if read_i32_le(data, OFF_IS_RACE_ON) == 0 {
        return Ok(ForzaTelemetry::RaceOff);
    }
    Ok(ForzaTelemetry::Sled(parse_sled_common(data)))
}

/// Parse a buffer as a CarDash packet (at least 311 bytes).
pub fn parse_forza_cardash(data: &[u8]) -> (r: Result<ForzaTelemetry, TelemetryError>)
    ensures
        r == cardash_result(data@),
{
    if data.len() < FORZA_CARDASH_SIZE {
        return Err(TelemetryError::TooShort { needed: FORZA_CARDASH_SIZE, actual: data.len() });
    }
    if read_i32_le(data, OFF_IS_RACE_ON) == 0 {
        return Ok(ForzaTelemetry::RaceOff);
    }
    Ok(ForzaTelemetry::CarDash(parse_sled_common(data), parse_dash(data)))
}

/// What parsing a datagram gives: its length picks the format.
pub open spec fn forza_result(d: Seq<u8>) -> Result<ForzaTelemetry, TelemetryError> {
    match format_of_len(d.len() as int) {
        ForzaPacketFormat::Sled => sled_result(d),
        ForzaPacketFormat::CarDash => cardash_result(d),
        ForzaPacketFormat::Unknown => Err(TelemetryError::UnknownPacketLength(d.len() as usize)),
    }
}

/// Parse a datagram of either format.
pub fn parse_forza_packet(data: &[u8]) -> (r: Result<ForzaTelemetry, TelemetryError>)
    ensures
        r == forza_result(data@),
{
    match detect_format(data.len()) {
        ForzaPacketFormat::Sled => parse_forza_sled(data),
        ForzaPacketFormat::CarDash => parse_forza_cardash(data),
        ForzaPacketFormat::Unknown => Err(TelemetryError::UnknownPacketLength(data.len())),
    }
}

/// The executable names of the Forza games.
pub open spec fn forza_process_names() -> Seq<&'static str> {
    seq!["forzahorizon5.exe", "forzahorizon4.exe", "forzamotorsport.exe", "forza motorsport 7.exe", "forza_street.exe"]
}

/// Whether a running process's executable name is a Forza game's.
pub fn is_forza_process_name(exe_name: &[u8]) -> (r: bool)
    ensures
        r == matches_any_contained(exe_name@, forza_process_names()),
{
    let names: [&str; 5] = ["forzahorizon5.exe", "forzahorizon4.exe", "forzamotorsport.exe", "forza motorsport 7.exe", "forza_street.exe"];
    assert(names@ =~= forza_process_names());
    contains_any(exe_name, names.as_slice())
}

/// Forza Motorsport adapter configuration.
#[derive(Debug, Clone, Copy, PartialEq, Eq, Structural)]
pub struct ForzaAdapter {
    pub bind_port: u16,
    pub update_rate_ms: u64,
}

impl ForzaAdapter {
    pub fn new() -> (r: Self)
        ensures
            r.bind_port == DEFAULT_FORZA_PORT,
            r.update_rate_ms == DEFAULT_UPDATE_RATE_MS,
    {
        ForzaAdapter { bind_port: DEFAULT_FORZA_PORT, update_rate_ms: DEFAULT_UPDATE_RATE_MS }
    }

    pub fn with_port(self, port: u16) -> (r: Self)
        ensures
            r == (ForzaAdapter { bind_port: port, ..self }),
    {
        ForzaAdapter { bind_port: port, ..self }
    }

    pub fn game_id(&self) -> (r: &'static str)
        ensures
            r@ == "forza_motorsport"@,
    {
        "forza_motorsport"
    }

    pub fn expected_update_rate_ms(&self) -> (r: u64)
        ensures
            r == self.update_rate_ms,
    {
        self.update_rate_ms
    }

    pub fn normalize(&self, raw: &[u8]) -> (r: Result<ForzaTelemetry, TelemetryError>)
        ensures
            r == forza_result(raw@),
    {
        parse_forza_packet(raw)
    }
}

} // verus!
