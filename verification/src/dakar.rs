//! Dakar Desert Rally bridge telemetry (UDP port 7779).
//!
//! A community bridge forwards game memory as datagrams that start with the
//! magic `DAKR`, then a sequence number, and single-precision fields at fixed
//! offsets; the gear is one byte, 255 meaning reverse.
use crate::bytes::{le_u32, read_u32_le};
use crate::error::TelemetryError;
use vstd::prelude::*;

verus! {

pub const DEFAULT_DAKAR_PORT: u16 = 7779;
pub const DAKAR_MIN_PACKET_SIZE: usize = 40;
pub const MAX_PACKET_SIZE: usize = 512;
pub const DEFAULT_UPDATE_RATE_MS: u64 = 16;

pub const OFF_SPEED: usize = 8;
pub const OFF_RPM: usize = 12;
pub const OFF_GEAR: usize = 16;
pub const OFF_LATERAL_G: usize = 20;
pub const OFF_LONGITUDINAL_G: usize = 24;
pub const OFF_THROTTLE: usize = 28;
pub const OFF_BRAKE: usize = 32;
pub const OFF_STEERING: usize = 36;

/// The magic `DAKR` that opens every packet.
pub open spec fn dakar_magic() -> Seq<u8> {
    seq![0x44u8, 0x41u8, 0x4Bu8, 0x52u8]
}

/// The fields of one packet; single-precision values as their bit patterns,
/// exactly as sent (non-finite values included).
#[derive(Debug, Clone, Copy, PartialEq, Eq, Structural)]
pub struct DakarPacket {
    pub speed_bits: u32,
    pub rpm_bits: u32,
    pub gear: i8,
    pub lateral_g_bits: u32,
    pub longitudinal_g_bits: u32,
    pub throttle_bits: u32,
    pub brake_bits: u32,
    pub steering_bits: u32,
}

/// Reverse (255) reads as -1; forward gears are capped at 12.
pub open spec fn dakar_gear(raw: u8) -> i8 {
    if raw == 255 {
        -1i8
    } else if raw > 12 {
        12i8
    } else {
        raw as i8
    }
}

fn gear_from_byte(raw: u8) -> (r: i8)
    ensures
        r == dakar_gear(raw),
{
    if raw == 255 {
        -1
    } else if raw > 12 {
        12
    } else {
        raw as i8
    }
}

/// The packet fields of a buffer of at least 40 bytes.
pub open spec fn dakar_packet_of(d: Seq<u8>) -> DakarPacket {
    DakarPacket {
        speed_bits: le_u32(d, OFF_SPEED as int) as u32,
        rpm_bits: le_u32(d, OFF_RPM as int) as u32,
        gear: dakar_gear(d[OFF_GEAR as int]),
        lateral_g_bits: le_u32(d, OFF_LATERAL_G as int) as u32,
        longitudinal_g_bits: le_u32(d, OFF_LONGITUDINAL_G as int) as u32,
        throttle_bits: le_u32(d, OFF_THROTTLE as int) as u32,
        brake_bits: le_u32(d, OFF_BRAKE as int) as u32,
        steering_bits: le_u32(d, OFF_STEERING as int) as u32,
    }
}

/// Parse a bridge packet: too short under 40 bytes, then a magic check.
pub fn parse_dakar_packet(data: &[u8]) -> (r: Result<DakarPacket, TelemetryError>)
    ensures
        data@.len() < DAKAR_MIN_PACKET_SIZE ==> r == Err::<DakarPacket, TelemetryError>(
            TelemetryError::TooShort { needed: DAKAR_MIN_PACKET_SIZE, actual: data@.len() as usize },
        ),
        data@.len() >= DAKAR_MIN_PACKET_SIZE && data@.subrange(0, 4) != dakar_magic() ==> r
            == Err::<DakarPacket, TelemetryError>(TelemetryError::BadMagic),
        data@.len() >= DAKAR_MIN_PACKET_SIZE && data@.subrange(0, 4) == dakar_magic() ==> r
            == Ok::<DakarPacket, TelemetryError>(dakar_packet_of(data@)),
{
    if data.len() < DAKAR_MIN_PACKET_SIZE {
        return Err(TelemetryError::TooShort { needed: DAKAR_MIN_PACKET_SIZE, actual: data.len() });
    }
    if !(data[0] == 0x44 && data[1] == 0x41 && data[2] == 0x4B && data[3] == 0x52) {
        proof {
            if data@.subrange(0, 4) == dakar_magic() {
                assert(data@[0] == data@.subrange(0, 4)[0]);
                assert(data@[1] == data@.subrange(0, 4)[1]);
                assert(data@[2] == data@.subrange(0, 4)[2]);
                assert(data@[3] == data@.subrange(0, 4)[3]);
            }
        }
        return Err(TelemetryError::BadMagic);
    }
    assert(data@.subrange(0, 4) =~= dakar_magic());
    Ok(DakarPacket {
        speed_bits: read_u32_le(data, OFF_SPEED),
        rpm_bits: read_u32_le(data, OFF_RPM),
        gear: gear_from_byte(data[OFF_GEAR]),
        lateral_g_bits: read_u32_le(data, OFF_LATERAL_G),
        longitudinal_g_bits: read_u32_le(data, OFF_LONGITUDINAL_G),
        throttle_bits: read_u32_le(data, OFF_THROTTLE),
        brake_bits: read_u32_le(data, OFF_BRAKE),
        steering_bits: read_u32_le(data, OFF_STEERING),
    })
}

/// Dakar Desert Rally bridge adapter configuration.
#[derive(Debug, Clone, Copy, PartialEq, Eq, Structural)]
pub struct DakarDesertRallyAdapter {
    pub bind_port: u16,
    pub update_rate_ms: u64,
}

impl DakarDesertRallyAdapter {
    pub fn new() -> (r: Self)
        ensures
            r.bind_port == DEFAULT_DAKAR_PORT,
            r.update_rate_ms == DEFAULT_UPDATE_RATE_MS,
    {
        DakarDesertRallyAdapter { bind_port: DEFAULT_DAKAR_PORT, update_rate_ms: DEFAULT_UPDATE_RATE_MS }
    }

    pub fn with_port(self, port: u16) -> (r: Self)
        ensures
            r == (DakarDesertRallyAdapter { bind_port: port, ..self }),
    {
        DakarDesertRallyAdapter { bind_port: port, ..self }
    }

    pub fn game_id(&self) -> (r: &'static str)
        ensures
            r@ == "dakar_desert_rally"@,
    {
        "dakar_desert_rally"
    }

    pub fn expected_update_rate_ms(&self) -> (r: u64)
        ensures
            r == self.update_rate_ms,
    {
        self.update_rate_ms
    }

    /// The adapter does not detect the game process.
    pub fn is_game_running(&self) -> (r: bool)
        ensures
            !r,
    {
        false
    }

    pub fn normalize(&self, raw: &[u8]) -> (r: Result<DakarPacket, TelemetryError>)
        ensures
            r == (if raw@.len() < DAKAR_MIN_PACKET_SIZE {
                Err(TelemetryError::TooShort { needed: DAKAR_MIN_PACKET_SIZE, actual: raw@.len() as usize })
            } else if raw@.subrange(0, 4) != dakar_magic() {
                Err(TelemetryError::BadMagic)
            } else {
                Ok(dakar_packet_of(raw@))
            }),
    {
        parse_dakar_packet(raw)
    }
}

} // verus!
