//! GRID Legends telemetry over its Codemasters Mode 1 variant (port 20777):
//! a 252-byte layout of little-endian single-precision fields, shifted from
//! the shared Mode 1 offsets.
use crate::bytes::{le_u32, read_u32_le};
use crate::codemasters_shared::{at_least_half_bits, gear_from_bits, gear_of_bits};
use crate::error::TelemetryError;
use crate::settings::{heartbeat_fresh, is_recent_packet, positive_u16_setting, positive_u64_setting, setting_in_range, text_of};
use vstd::prelude::*;

verus! {

pub const DEFAULT_PORT: u16 = 20777;
pub const MIN_PACKET_SIZE: usize = 252;
pub const MAX_PACKET_SIZE: usize = 2048;
pub const DEFAULT_HEARTBEAT_TIMEOUT_MS: u64 = 1500;
pub const DEFAULT_UPDATE_RATE_MS: u64 = 16;

pub const OFF_VEL_X: usize = 28;
pub const OFF_VEL_Y: usize = 32;
pub const OFF_VEL_Z: usize = 36;
pub const OFF_WHEEL_SPEED_FL: usize = 92;
pub const OFF_WHEEL_SPEED_FR: usize = 96;
pub const OFF_WHEEL_SPEED_RL: usize = 100;
pub const OFF_WHEEL_SPEED_RR: usize = 104;
pub const OFF_THROTTLE: usize = 108;
pub const OFF_STEER: usize = 112;
pub const OFF_BRAKE: usize = 116;
pub const OFF_GEAR: usize = 124;
pub const OFF_GFORCE_LAT: usize = 128;
pub const OFF_GFORCE_LON: usize = 132;
pub const OFF_CURRENT_LAP: usize = 136;
pub const OFF_RPM: usize = 140;
pub const OFF_CAR_POSITION: usize = 148;
pub const OFF_FUEL_IN_TANK: usize = 172;
pub const OFF_FUEL_CAPACITY: usize = 176;
pub const OFF_IN_PIT: usize = 180;
pub const OFF_BRAKES_TEMP_FL: usize = 196;
pub const OFF_TYRES_PRESSURE_FL: usize = 212;
pub const OFF_LAST_LAP_TIME: usize = 236;
pub const OFF_MAX_RPM: usize = 240;
pub const OFF_MAX_GEARS: usize = 248;

/// Every field the adapter reads, as the bit pattern of the
/// single-precision value exactly as sent.
#[derive(Debug, Clone, Copy, PartialEq, Eq, Structural)]
pub struct GridLegendsFields {
    pub vel_x_bits: u32,
    pub vel_y_bits: u32,
    pub vel_z_bits: u32,
    pub wheel_speed_fl_bits: u32,
    pub wheel_speed_fr_bits: u32,
    pub wheel_speed_rl_bits: u32,
    pub wheel_speed_rr_bits: u32,
    pub throttle_bits: u32,
    pub steer_bits: u32,
    pub brake_bits: u32,
    pub gear_bits: u32,
    pub gforce_lat_bits: u32,
    pub gforce_lon_bits: u32,
    pub current_lap_bits: u32,
    pub rpm_bits: u32,
    pub car_position_bits: u32,
    pub fuel_in_tank_bits: u32,
    pub fuel_capacity_bits: u32,
    pub in_pit_bits: u32,
    pub brakes_temp_fl_bits: u32,
    pub brakes_temp_fr_bits: u32,
    pub brakes_temp_rl_bits: u32,
    pub brakes_temp_rr_bits: u32,
    pub tyres_pressure_fl_bits: u32,
    pub tyres_pressure_fr_bits: u32,
    pub tyres_pressure_rl_bits: u32,
    pub tyres_pressure_rr_bits: u32,
    pub last_lap_time_bits: u32,
    pub max_rpm_bits: u32,
    pub max_gears_bits: u32,
}

pub open spec fn grid_legends_fields_of(d: Seq<u8>) -> GridLegendsFields {
    GridLegendsFields {
        vel_x_bits: le_u32(d, (OFF_VEL_X) as int) as u32,
        vel_y_bits: le_u32(d, (OFF_VEL_Y) as int) as u32,
        vel_z_bits: le_u32(d, (OFF_VEL_Z) as int) as u32,
        wheel_speed_fl_bits: le_u32(d, (OFF_WHEEL_SPEED_FL) as int) as u32,
        wheel_speed_fr_bits: le_u32(d, (OFF_WHEEL_SPEED_FR) as int) as u32,
        wheel_speed_rl_bits: le_u32(d, (OFF_WHEEL_SPEED_RL) as int) as u32,
        wheel_speed_rr_bits: le_u32(d, (OFF_WHEEL_SPEED_RR) as int) as u32,
        throttle_bits: le_u32(d, (OFF_THROTTLE) as int) as u32,
        steer_bits: le_u32(d, (OFF_STEER) as int) as u32,
        brake_bits: le_u32(d, (OFF_BRAKE) as int) as u32,
        gear_bits: le_u32(d, (OFF_GEAR) as int) as u32,
        gforce_lat_bits: le_u32(d, (OFF_GFORCE_LAT) as int) as u32,
        gforce_lon_bits: le_u32(d, (OFF_GFORCE_LON) as int) as u32,
        current_lap_bits: le_u32(d, (OFF_CURRENT_LAP) as int) as u32,
        rpm_bits: le_u32(d, (OFF_RPM) as int) as u32,
        car_position_bits: le_u32(d, (OFF_CAR_POSITION) as int) as u32,
        fuel_in_tank_bits: le_u32(d, (OFF_FUEL_IN_TANK) as int) as u32,
        fuel_capacity_bits: le_u32(d, (OFF_FUEL_CAPACITY) as int) as u32,
        in_pit_bits: le_u32(d, (OFF_IN_PIT) as int) as u32,
        brakes_temp_fl_bits: le_u32(d, (OFF_BRAKES_TEMP_FL) as int) as u32,
        brakes_temp_fr_bits: le_u32(d, (OFF_BRAKES_TEMP_FL + 4) as int) as u32,
        brakes_temp_rl_bits: le_u32(d, (OFF_BRAKES_TEMP_FL + 8) as int) as u32,
        brakes_temp_rr_bits: le_u32(d, (OFF_BRAKES_TEMP_FL + 12) as int) as u32,
        tyres_pressure_fl_bits: le_u32(d, (OFF_TYRES_PRESSURE_FL) as int) as u32,
        tyres_pressure_fr_bits: le_u32(d, (OFF_TYRES_PRESSURE_FL + 4) as int) as u32,
        tyres_pressure_rl_bits: le_u32(d, (OFF_TYRES_PRESSURE_FL + 8) as int) as u32,
        tyres_pressure_rr_bits: le_u32(d, (OFF_TYRES_PRESSURE_FL + 12) as int) as u32,
        last_lap_time_bits: le_u32(d, (OFF_LAST_LAP_TIME) as int) as u32,
        max_rpm_bits: le_u32(d, (OFF_MAX_RPM) as int) as u32,
        max_gears_bits: le_u32(d, (OFF_MAX_GEARS) as int) as u32,
    }
}

/// What parsing a packet gives: too short under 252 bytes, otherwise its
/// fields.
pub open spec fn grid_legends_result(d: Seq<u8>) -> Result<GridLegendsFields, TelemetryError> {
    if d.len() < MIN_PACKET_SIZE {
        Err(TelemetryError::TooShort { needed: MIN_PACKET_SIZE, actual: d.len() as usize })
    } else {
        Ok(grid_legends_fields_of(d))
    }
}

/// Parse a GRID Legends packet.
pub fn parse_packet(data: &[u8]) -> (r: Result<GridLegendsFields, TelemetryError>)
    ensures
        r == grid_legends_result(data@),
{
    if data.len() < MIN_PACKET_SIZE {
        return Err(TelemetryError::TooShort { needed: MIN_PACKET_SIZE, actual: data.len() });
    }
    Ok(GridLegendsFields {
        vel_x_bits: read_u32_le(data, OFF_VEL_X),
        vel_y_bits: read_u32_le(data, OFF_VEL_Y),
        vel_z_bits: read_u32_le(data, OFF_VEL_Z),
        wheel_speed_fl_bits: read_u32_le(data, OFF_WHEEL_SPEED_FL),
        wheel_speed_fr_bits: read_u32_le(data, OFF_WHEEL_SPEED_FR),
        wheel_speed_rl_bits: read_u32_le(data, OFF_WHEEL_SPEED_RL),
        wheel_speed_rr_bits: read_u32_le(data, OFF_WHEEL_SPEED_RR),
        throttle_bits: read_u32_le(data, OFF_THROTTLE),
        steer_bits: read_u32_le(data, OFF_STEER),
        brake_bits: read_u32_le(data, OFF_BRAKE),
        gear_bits: read_u32_le(data, OFF_GEAR),
        gforce_lat_bits: read_u32_le(data, OFF_GFORCE_LAT),
        gforce_lon_bits: read_u32_le(data, OFF_GFORCE_LON),
        current_lap_bits: read_u32_le(data, OFF_CURRENT_LAP),
        rpm_bits: read_u32_le(data, OFF_RPM),
        car_position_bits: read_u32_le(data, OFF_CAR_POSITION),
        fuel_in_tank_bits: read_u32_le(data, OFF_FUEL_IN_TANK),
        fuel_capacity_bits: read_u32_le(data, OFF_FUEL_CAPACITY),
        in_pit_bits: read_u32_le(data, OFF_IN_PIT),
        brakes_temp_fl_bits: read_u32_le(data, OFF_BRAKES_TEMP_FL),
        brakes_temp_fr_bits: read_u32_le(data, OFF_BRAKES_TEMP_FL + 4),
        brakes_temp_rl_bits: read_u32_le(data, OFF_BRAKES_TEMP_FL + 8),
        brakes_temp_rr_bits: read_u32_le(data, OFF_BRAKES_TEMP_FL + 12),
        tyres_pressure_fl_bits: read_u32_le(data, OFF_TYRES_PRESSURE_FL),
        tyres_pressure_fr_bits: read_u32_le(data, OFF_TYRES_PRESSURE_FL + 4),
        tyres_pressure_rl_bits: read_u32_le(data, OFF_TYRES_PRESSURE_FL + 8),
        tyres_pressure_rr_bits: read_u32_le(data, OFF_TYRES_PRESSURE_FL + 12),
        last_lap_time_bits: read_u32_le(data, OFF_LAST_LAP_TIME),
        max_rpm_bits: read_u32_le(data, OFF_MAX_RPM),
        max_gears_bits: read_u32_le(data, OFF_MAX_GEARS),
    })
}

/// GRID Legends adapter configuration.
#[derive(Debug, Clone, Copy, PartialEq, Eq, Structural)]
pub struct GridLegendsAdapter {
    pub bind_port: u16,
    pub update_rate_ms: u64,
    pub heartbeat_timeout_ms: u64,
}

impl GridLegendsAdapter {
    /// Configuration from the port and heartbeat-timeout settings (the
    /// values of `OPENRACING_GRID_LEGENDS_UDP_PORT` and
    /// `OPENRACING_GRID_LEGENDS_HEARTBEAT_TIMEOUT_MS`): positive values
    /// override the defaults.
    pub fn new(port_setting: Option<&str>, heartbeat_setting: Option<&str>) -> (r: Self)
        ensures
            r.bind_port as int == setting_in_range(text_of(port_setting), u16::MAX as int, 1, u16::MAX as int, DEFAULT_PORT as int),
            r.heartbeat_timeout_ms as int == setting_in_range(text_of(heartbeat_setting), u64::MAX as int, 1, u64::MAX as int, DEFAULT_HEARTBEAT_TIMEOUT_MS as int),
            r.update_rate_ms == DEFAULT_UPDATE_RATE_MS,
    {
        GridLegendsAdapter {
            bind_port: positive_u16_setting(port_setting, DEFAULT_PORT),
            update_rate_ms: DEFAULT_UPDATE_RATE_MS,
            heartbeat_timeout_ms: positive_u64_setting(heartbeat_setting, DEFAULT_HEARTBEAT_TIMEOUT_MS),
        }
    }

    /// Override the UDP bind port.
    pub fn with_port(self, port: u16) -> (r: Self)
        ensures
            r == (GridLegendsAdapter { bind_port: port, ..self }),
    {
        GridLegendsAdapter { bind_port: port, ..self }
    }

    pub fn game_id(&self) -> (r: &'static str)
        ensures
            r@ == "grid_legends"@,
    {
        "grid_legends"
    }

    pub fn expected_update_rate_ms(&self) -> (r: u64)
        ensures
            r == self.update_rate_ms,
    {
        self.update_rate_ms
    }

    /// Whether a packet received at `last_packet_ns` (0 = never) is recent
    /// at `now_ns`.
    pub fn is_recent_packet(&self, last_packet_ns: u64, now_ns: u64) -> (r: bool)
        ensures
            r == heartbeat_fresh(last_packet_ns, now_ns, self.heartbeat_timeout_ms),
    {
        is_recent_packet(last_packet_ns, now_ns, self.heartbeat_timeout_ms)
    }

    pub fn normalize(&self, raw: &[u8]) -> (r: Result<GridLegendsFields, TelemetryError>)
        ensures
            r == grid_legends_result(raw@),
    {
        parse_packet(raw)
    }
}

impl GridLegendsFields {
    /// The car is in the pits: the in-pit value is at least 0.5.
    pub fn in_pits(&self) -> (r: bool)
        ensures
            r == at_least_half_bits(self.in_pit_bits),
    {
        0x3F00_0000 <= self.in_pit_bits && self.in_pit_bits <= 0x7F80_0000
    }

    /// The normalized gear of the gear value as sent (see [`gear_of_bits`]).
    pub fn normalized_gear(&self) -> (r: i8)
        ensures
            r == gear_of_bits(self.gear_bits),
    {
        gear_from_bits(self.gear_bits)
    }
}

} // verus!
