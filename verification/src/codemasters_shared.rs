//! The Codemasters Mode 1 UDP packet shared by DiRT Rally 2.0, DiRT 3,
//! DiRT 4, GRID Autosport and GRID 2019: a fixed 264-byte layout in which
//! every field is a little-endian single-precision value at a known offset.
use crate::bytes::{float_opt, get_float_bits};
use crate::error::TelemetryError;
use vstd::prelude::*;

verus! {

/// Minimum size of a Mode 1 packet.
pub const MIN_PACKET_SIZE: usize = 264;

pub const OFF_VEL_X: usize = 32;
pub const OFF_VEL_Y: usize = 36;
pub const OFF_VEL_Z: usize = 40;
pub const OFF_WHEEL_SPEED_RL: usize = 100;
pub const OFF_WHEEL_SPEED_RR: usize = 104;
pub const OFF_WHEEL_SPEED_FL: usize = 108;
pub const OFF_WHEEL_SPEED_FR: usize = 112;
pub const OFF_THROTTLE: usize = 116;
pub const OFF_STEER: usize = 120;
pub const OFF_BRAKE: usize = 124;
pub const OFF_GEAR: usize = 132;
pub const OFF_GFORCE_LAT: usize = 136;
pub const OFF_GFORCE_LON: usize = 140;
pub const OFF_CURRENT_LAP: usize = 144;
pub const OFF_RPM: usize = 148;
pub const OFF_CAR_POSITION: usize = 156;
pub const OFF_FUEL_IN_TANK: usize = 180;
pub const OFF_FUEL_CAPACITY: usize = 184;
pub const OFF_IN_PIT: usize = 188;
pub const OFF_BRAKES_TEMP_FL: usize = 212;
pub const OFF_TYRES_PRESSURE_FL: usize = 228;
pub const OFF_LAST_LAP_TIME: usize = 248;
pub const OFF_MAX_RPM: usize = 252;
pub const OFF_MAX_GEARS: usize = 260;

/// The single-precision field at `offset`: its bit pattern when it lies
/// inside `data` and is finite, `None` otherwise.
pub fn read_f32(data: &[u8], offset: usize) -> (r: Option<u32>)
    ensures
        r == float_opt(data@, offset as int),
{
    get_float_bits(data, offset)
}

/// Every Mode 1 field the adapters read: the bit pattern of each
/// single-precision value, `None` where it is not finite.
#[derive(Debug, Clone, Copy, PartialEq, Eq, Structural)]
pub struct Mode1Fields {
    pub vel_x: Option<u32>,
    pub vel_y: Option<u32>,
    pub vel_z: Option<u32>,
    pub wheel_speed_rl: Option<u32>,
    pub wheel_speed_rr: Option<u32>,
    pub wheel_speed_fl: Option<u32>,
    pub wheel_speed_fr: Option<u32>,
    pub throttle: Option<u32>,
    pub steer: Option<u32>,
    pub brake: Option<u32>,
    pub gear: Option<u32>,
    pub gforce_lat: Option<u32>,
    pub gforce_lon: Option<u32>,
    pub current_lap: Option<u32>,
    pub rpm: Option<u32>,
    pub car_position: Option<u32>,
    pub fuel_in_tank: Option<u32>,
    pub fuel_capacity: Option<u32>,
    pub in_pit: Option<u32>,
    pub brakes_temp_fl: Option<u32>,
    pub brakes_temp_fr: Option<u32>,
    pub brakes_temp_rl: Option<u32>,
    pub brakes_temp_rr: Option<u32>,
    pub tyres_pressure_fl: Option<u32>,
    pub tyres_pressure_fr: Option<u32>,
    pub tyres_pressure_rl: Option<u32>,
    pub tyres_pressure_rr: Option<u32>,
    pub last_lap_time: Option<u32>,
    pub max_rpm: Option<u32>,
    pub max_gears: Option<u32>,
}

pub open spec fn mode1_fields_of(d: Seq<u8>) -> Mode1Fields {
    Mode1Fields {
        vel_x: float_opt(d, (OFF_VEL_X) as int),
        vel_y: float_opt(d, (OFF_VEL_Y) as int),
        vel_z: float_opt(d, (OFF_VEL_Z) as int),
        wheel_speed_rl: float_opt(d, (OFF_WHEEL_SPEED_RL) as int),
        wheel_speed_rr: float_opt(d, (OFF_WHEEL_SPEED_RR) as int),
        wheel_speed_fl: float_opt(d, (OFF_WHEEL_SPEED_FL) as int),
        wheel_speed_fr: float_opt(d, (OFF_WHEEL_SPEED_FR) as int),
        throttle: float_opt(d, (OFF_THROTTLE) as int),
        steer: float_opt(d, (OFF_STEER) as int),
        brake: float_opt(d, (OFF_BRAKE) as int),
        gear: float_opt(d, (OFF_GEAR) as int),
        gforce_lat: float_opt(d, (OFF_GFORCE_LAT) as int),
        gforce_lon: float_opt(d, (OFF_GFORCE_LON) as int),
        current_lap: float_opt(d, (OFF_CURRENT_LAP) as int),
        rpm: float_opt(d, (OFF_RPM) as int),
        car_position: float_opt(d, (OFF_CAR_POSITION) as int),
        fuel_in_tank: float_opt(d, (OFF_FUEL_IN_TANK) as int),
        fuel_capacity: float_opt(d, (OFF_FUEL_CAPACITY) as int),
        in_pit: float_opt(d, (OFF_IN_PIT) as int),
        brakes_temp_fl: float_opt(d, (OFF_BRAKES_TEMP_FL) as int),
        brakes_temp_fr: float_opt(d, (OFF_BRAKES_TEMP_FL + 4) as int),
        brakes_temp_rl: float_opt(d, (OFF_BRAKES_TEMP_FL + 8) as int),
        brakes_temp_rr: float_opt(d, (OFF_BRAKES_TEMP_FL + 12) as int),
        tyres_pressure_fl: float_opt(d, (OFF_TYRES_PRESSURE_FL) as int),
        tyres_pressure_fr: float_opt(d, (OFF_TYRES_PRESSURE_FL + 4) as int),
        tyres_pressure_rl: float_opt(d, (OFF_TYRES_PRESSURE_FL + 8) as int),
        tyres_pressure_rr: float_opt(d, (OFF_TYRES_PRESSURE_FL + 12) as int),
        last_lap_time: float_opt(d, (OFF_LAST_LAP_TIME) as int),
        max_rpm: float_opt(d, (OFF_MAX_RPM) as int),
        max_gears: float_opt(d, (OFF_MAX_GEARS) as int),
    }
}

/// What parsing a Mode 1 packet gives: too short under 264 bytes, otherwise
/// its fields.
pub open spec fn mode1_result(d: Seq<u8>) -> Result<Mode1Fields, TelemetryError> {
    if d.len() < MIN_PACKET_SIZE {
        Err(TelemetryError::TooShort { needed: MIN_PACKET_SIZE, actual: d.len() as usize })
    } else {
        Ok(mode1_fields_of(d))
    }
}

/// Where each Mode 1 value sits: the finite single-precision word at its
/// fixed offset (velocities at 32..44; wheel speeds rear-left, rear-right,
/// front-left, front-right at 100..116; throttle 116, steering 120, brake
/// 124, gear 132, lateral then longitudinal g at 136 and 140, lap 144, rpm
/// 148, position 156, fuel in tank 180 and capacity 184, in-pit 188; brake
/// temperatures front-left, front-right, rear-left, rear-right at
/// 212..228; tyre pressures in the same wheel order at 228..244; last lap
/// 248, maximum rpm 252, gear count 260), and a packet of at least 264
/// bytes always parses.
pub proof fn lemma_mode1_layout(d: Seq<u8>)
    ensures
        d.len() >= 264 <==> mode1_result(d) is Ok,
        mode1_result(d) matches Ok(f) ==> (
            d.len() >= 264
            && f.vel_x == float_opt(d, 32)
            && f.vel_y == float_opt(d, 36)
            && f.vel_z == float_opt(d, 40)
            && f.wheel_speed_rl == float_opt(d, 100)
            && f.wheel_speed_rr == float_opt(d, 104)
            && f.wheel_speed_fl == float_opt(d, 108)
            && f.wheel_speed_fr == float_opt(d, 112)
            && f.throttle == float_opt(d, 116)
            && f.steer == float_opt(d, 120)
            && f.brake == float_opt(d, 124)
            && f.gear == float_opt(d, 132)
            && f.gforce_lat == float_opt(d, 136)
            && f.gforce_lon == float_opt(d, 140)
            && f.current_lap == float_opt(d, 144)
            && f.rpm == float_opt(d, 148)
            && f.car_position == float_opt(d, 156)
            && f.fuel_in_tank == float_opt(d, 180)
            && f.fuel_capacity == float_opt(d, 184)
            && f.in_pit == float_opt(d, 188)
            && f.brakes_temp_fl == float_opt(d, 212)
            && f.brakes_temp_fr == float_opt(d, 216)
            && f.brakes_temp_rl == float_opt(d, 220)
            && f.brakes_temp_rr == float_opt(d, 224)
            && f.tyres_pressure_fl == float_opt(d, 228)
            && f.tyres_pressure_fr == float_opt(d, 232)
            && f.tyres_pressure_rl == float_opt(d, 236)
            && f.tyres_pressure_rr == float_opt(d, 240)
            && f.last_lap_time == float_opt(d, 248)
            && f.max_rpm == float_opt(d, 252)
            && f.max_gears == float_opt(d, 260)
        ),
{
}

/// Parse a Codemasters Mode 1 packet.
pub fn parse_codemasters_mode1_common(data: &[u8]) -> (r: Result<Mode1Fields, TelemetryError>)
    ensures
        r == mode1_result(data@),
{
    if data.len() < MIN_PACKET_SIZE {
        return Err(TelemetryError::TooShort { needed: MIN_PACKET_SIZE, actual: data.len() });
    }
    Ok(Mode1Fields {
        vel_x: get_float_bits(data, OFF_VEL_X),
        vel_y: get_float_bits(data, OFF_VEL_Y),
        vel_z: get_float_bits(data, OFF_VEL_Z),
        wheel_speed_rl: get_float_bits(data, OFF_WHEEL_SPEED_RL),
        wheel_speed_rr: get_float_bits(data, OFF_WHEEL_SPEED_RR),
        wheel_speed_fl: get_float_bits(data, OFF_WHEEL_SPEED_FL),
        wheel_speed_fr: get_float_bits(data, OFF_WHEEL_SPEED_FR),
        throttle: get_float_bits(data, OFF_THROTTLE),
        steer: get_float_bits(data, OFF_STEER),
        brake: get_float_bits(data, OFF_BRAKE),
        gear: get_float_bits(data, OFF_GEAR),
        gforce_lat: get_float_bits(data, OFF_GFORCE_LAT),
        gforce_lon: get_float_bits(data, OFF_GFORCE_LON),
        current_lap: get_float_bits(data, OFF_CURRENT_LAP),
        rpm: get_float_bits(data, OFF_RPM),
        car_position: get_float_bits(data, OFF_CAR_POSITION),
        fuel_in_tank: get_float_bits(data, OFF_FUEL_IN_TANK),
        fuel_capacity: get_float_bits(data, OFF_FUEL_CAPACITY),
        in_pit: get_float_bits(data, OFF_IN_PIT),
        brakes_temp_fl: get_float_bits(data, OFF_BRAKES_TEMP_FL),
        brakes_temp_fr: get_float_bits(data, OFF_BRAKES_TEMP_FL + 4),
        brakes_temp_rl: get_float_bits(data, OFF_BRAKES_TEMP_FL + 8),
        brakes_temp_rr: get_float_bits(data, OFF_BRAKES_TEMP_FL + 12),
        tyres_pressure_fl: get_float_bits(data, OFF_TYRES_PRESSURE_FL),
        tyres_pressure_fr: get_float_bits(data, OFF_TYRES_PRESSURE_FL + 4),
        tyres_pressure_rl: get_float_bits(data, OFF_TYRES_PRESSURE_FL + 8),
        tyres_pressure_rr: get_float_bits(data, OFF_TYRES_PRESSURE_FL + 12),
        last_lap_time: get_float_bits(data, OFF_LAST_LAP_TIME),
        max_rpm: get_float_bits(data, OFF_MAX_RPM),
        max_gears: get_float_bits(data, OFF_MAX_GEARS),
    })
}

// ── Gear ─────────────────────────────────────────────────────────────────────

/// The gear a single-precision gear value stands for, on its bit pattern:
/// values below 0.5 are reverse (-1), others round half away from zero and
/// cap at eighth gear, and NaN reads as neutral (0). Non-negative values
/// order as their bit patterns do, so rounding to `k` is lying between the
/// patterns of `k - 0.5` and `k + 0.5`.
pub open spec fn gear_of_bits(b: u32) -> i8 {
    if b % 0x8000_0000 > 0x7F80_0000 {
        0i8
    } else if b >= 0x8000_0000 || b < 0x3F00_0000 {
        -1i8
    } else if b < 0x3FC0_0000 {
        1i8
    } else if b < 0x4020_0000 {
        2i8
    } else if b < 0x4060_0000 {
        3i8
    } else if b < 0x4090_0000 {
        4i8
    } else if b < 0x40B0_0000 {
        5i8
    } else if b < 0x40D0_0000 {
        6i8
    } else if b < 0x40F0_0000 {
        7i8
    } else {
        8i8
    }
}

/// The gear of a gear value's bit pattern (see [`gear_of_bits`]).
pub fn gear_from_bits(b: u32) -> (r: i8)
    ensures
        r == gear_of_bits(b),
{
    if b % 0x8000_0000 > 0x7F80_0000 {
        0
    } else if b >= 0x8000_0000 || b < 0x3F00_0000 {
        -1
    } else if b < 0x3FC0_0000 {
        1
    } else if b < 0x4020_0000 {
        2
    } else if b < 0x4060_0000 {
        3
    } else if b < 0x4090_0000 {
        4
    } else if b < 0x40B0_0000 {
        5
    } else if b < 0x40D0_0000 {
        6
    } else if b < 0x40F0_0000 {
        7
    } else {
        8
    }
}

/// Whether a single-precision value is at least 0.5, on its bit pattern:
/// not NaN, sign clear, and not below the pattern of 0.5.
pub open spec fn at_least_half_bits(b: u32) -> bool {
    0x3F00_0000 <= b && b <= 0x7F80_0000
}

impl Mode1Fields {
    /// The car is in the pits: the in-pit value is present and at least 0.5.
    pub fn in_pits(&self) -> (r: bool)
        ensures
            r == (self.in_pit matches Some(b) && at_least_half_bits(b)),
    {
        match self.in_pit {
            Some(b) => 0x3F00_0000 <= b && b <= 0x7F80_0000,
            None => false,
        }
    }

    /// The normalized gear: a missing or non-finite gear value counts as
    /// 0.0, that is reverse.
    pub fn normalized_gear(&self) -> (r: i8)
        ensures
            r == match self.gear {
                Some(b) => gear_of_bits(b),
                None => -1i8,
            },
    {
        match self.gear {
            Some(b) => gear_from_bits(b),
            None => -1,
        }
    }
}

} // verus!
