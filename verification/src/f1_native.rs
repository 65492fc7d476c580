//! F1 23 / F1 24 native UDP telemetry (packet formats 2023 and 2024). The
//! header, session and telemetry layouts are those of F1 25; the Car Status
//! entry is 47 bytes in F1 23 (no ICE/MGU-K power) and 55 bytes in F1 24.
use crate::bytes::{finite_or_zero, le_u32, lemma_le_u16_of, lemma_le_u32_of, le_u16, push_u16_le, push_u32_le, push_zeros, read_float_bits_finite, read_u16_le, u16_le_bytes, u32_le_bytes, zeros};
use crate::error::TelemetryError;
use crate::f1_25::{
    accepts, dispatch_packet, float_at, header_bytes, header_of, parse_car_telemetry, parse_header,
    parse_session_data, push_header, read_status_55, status_at, telemetry_at, telemetry_entry,
    telemetry_packet_bytes, CarStatusData, F125Frame, F125State, PacketHeader, SessionData,
    CAR_TELEMETRY_ENTRY_SIZE, HEADER_SIZE, MIN_CAR_TELEMETRY_PACKET_SIZE, MIN_SESSION_SIZE,
    NUM_CARS, PACKET_ID_CAR_STATUS, PACKET_ID_CAR_TELEMETRY, PACKET_ID_SESSION,
};
use crate::settings::{heartbeat_fresh, is_recent_packet, positive_u16_setting, positive_u64_setting, setting_in_range, text_of};
use vstd::prelude::*;

verus! {

pub const DEFAULT_PORT: u16 = 20777;
pub const DEFAULT_HEARTBEAT_TIMEOUT_MS: u64 = 2000;
pub const DEFAULT_UPDATE_RATE_MS: u64 = 16;
pub const MAX_PACKET_BYTES: usize = 2048;
pub const PACKET_FORMAT_2023: u16 = 2023;
pub const PACKET_FORMAT_2024: u16 = 2024;
pub const CAR_STATUS_2023_ENTRY_SIZE: usize = 47;
pub const CAR_STATUS_2024_ENTRY_SIZE: usize = 55;
pub const MIN_CAR_STATUS_2023_PACKET_SIZE: usize = 1063;
pub const MIN_CAR_STATUS_2024_PACKET_SIZE: usize = 1239;

/// Status data of one car; F1 23 packets carry no ICE/MGU-K power (zero).
pub type F1NativeCarStatusData = CarStatusData;

/// Combined mutable state kept between packets.
pub type F1NativeState = F125State;

/// The F1 23 status entry (47 bytes) that starts at `base`.
pub open spec fn status_2023_at(d: Seq<u8>, base: int) -> CarStatusData {
    CarStatusData {
        traction_control: d[base],
        anti_lock_brakes: d[base + 1],
        pit_limiter_status: d[base + 4],
        fuel_in_tank_bits: float_at(d, base + 5),
        fuel_remaining_laps_bits: float_at(d, base + 13),
        max_rpm: le_u16(d, base + 17) as u16,
        drs_allowed: d[base + 22],
        actual_tyre_compound: d[base + 25],
        tyre_age_laps: d[base + 27],
        engine_power_ice_bits: 0,
        engine_power_mguk_bits: 0,
        ers_store_energy_bits: float_at(d, base + 29),
        ers_deploy_mode: d[base + 33],
        ers_harvested_mguk_bits: float_at(d, base + 34),
        ers_harvested_mguh_bits: float_at(d, base + 38),
        ers_deployed_bits: float_at(d, base + 42),
    }
}

/// The status of a packet's player in the given layout.
pub open spec fn status_for(d: Seq<u8>, player_index: int, entry_size: int, min_size: int, format_2023: bool) -> Result<CarStatusData, TelemetryError> {
    if d.len() < min_size {
        Err(TelemetryError::TooShort { needed: min_size as usize, actual: d.len() as usize })
    } else if player_index >= NUM_CARS {
        Err(TelemetryError::PlayerIndexOutOfRange(player_index as usize))
    } else if format_2023 {
        Ok(status_2023_at(d, HEADER_SIZE + player_index * entry_size))
    } else {
        Ok(status_at(d, HEADER_SIZE + player_index * entry_size))
    }
}

/// Parse the F1 23 status entry for `player_index`.
pub fn parse_car_status_2023(raw: &[u8], player_index: usize) -> (r: Result<CarStatusData, TelemetryError>)
    ensures
        r == status_for(raw@, player_index as int, CAR_STATUS_2023_ENTRY_SIZE as int, MIN_CAR_STATUS_2023_PACKET_SIZE as int, true),
{
    if raw.len() < MIN_CAR_STATUS_2023_PACKET_SIZE {
        return Err(TelemetryError::TooShort { needed: MIN_CAR_STATUS_2023_PACKET_SIZE, actual: raw.len() });
    }
    if player_index >= NUM_CARS {
        return Err(TelemetryError::PlayerIndexOutOfRange(player_index));
    }
    assert(player_index * 47 <= 21 * 47) by (nonlinear_arith)
        requires
            player_index < 22,
    ;
    let o = HEADER_SIZE + player_index * CAR_STATUS_2023_ENTRY_SIZE;
    Ok(
        CarStatusData {
            traction_control: raw[o],
            anti_lock_brakes: raw[o + 1],
            pit_limiter_status: raw[o + 4],
            fuel_in_tank_bits: read_float_bits_finite(raw, o + 5),
            fuel_remaining_laps_bits: read_float_bits_finite(raw, o + 13),
            max_rpm: read_u16_le(raw, o + 17),
            drs_allowed: raw[o + 22],
            actual_tyre_compound: raw[o + 25],
            tyre_age_laps: raw[o + 27],
            engine_power_ice_bits: 0,
            engine_power_mguk_bits: 0,
            ers_store_energy_bits: read_float_bits_finite(raw, o + 29),
            ers_deploy_mode: raw[o + 33],
            ers_harvested_mguk_bits: read_float_bits_finite(raw, o + 34),
            ers_harvested_mguh_bits: read_float_bits_finite(raw, o + 38),
            ers_deployed_bits: read_float_bits_finite(raw, o + 42),
        },
    )
}

/// Parse the F1 24 status entry for `player_index`.
pub fn parse_car_status_2024(raw: &[u8], player_index: usize) -> (r: Result<CarStatusData, TelemetryError>)
    ensures
        r == status_for(raw@, player_index as int, CAR_STATUS_2024_ENTRY_SIZE as int, MIN_CAR_STATUS_2024_PACKET_SIZE as int, false),
{
    if raw.len() < MIN_CAR_STATUS_2024_PACKET_SIZE {
        return Err(TelemetryError::TooShort { needed: MIN_CAR_STATUS_2024_PACKET_SIZE, actual: raw.len() });
    }
    if player_index >= NUM_CARS {
        return Err(TelemetryError::PlayerIndexOutOfRange(player_index));
    }
    assert(player_index * 55 <= 21 * 55) by (nonlinear_arith)
        requires
            player_index < 22,
    ;
    Ok(read_status_55(raw, HEADER_SIZE + player_index * CAR_STATUS_2024_ENTRY_SIZE))
}

/// The status of a format-2023/2024 packet for its player.
pub open spec fn native_status(d: Seq<u8>) -> Result<CarStatusData, TelemetryError> {
    let h = header_of(d);
    if h.packet_format == PACKET_FORMAT_2023 {
        status_for(d, h.player_car_index as int, CAR_STATUS_2023_ENTRY_SIZE as int, MIN_CAR_STATUS_2023_PACKET_SIZE as int, true)
    } else {
        status_for(d, h.player_car_index as int, CAR_STATUS_2024_ENTRY_SIZE as int, MIN_CAR_STATUS_2024_PACKET_SIZE as int, false)
    }
}

pub open spec fn is_native_format(f: u16) -> bool {
    f == PACKET_FORMAT_2023 || f == PACKET_FORMAT_2024
}

/// Native F1 23/24 UDP telemetry adapter configuration.
#[derive(Debug, Clone, Copy, PartialEq, Eq, Structural)]
pub struct F1NativeAdapter {
    pub bind_port: u16,
    pub update_rate_ms: u64,
    pub heartbeat_timeout_ms: u64,
}

impl F1NativeAdapter {
    /// Configuration from the port and heartbeat-timeout settings
    /// (`OPENRACING_F1_NATIVE_UDP_PORT`,
    /// `OPENRACING_F1_NATIVE_HEARTBEAT_TIMEOUT_MS`): positive values override
    /// the defaults.
    pub fn new(port_setting: Option<&str>, heartbeat_setting: Option<&str>) -> (r: Self)
        ensures
            r.bind_port as int == setting_in_range(text_of(port_setting), u16::MAX as int, 1, u16::MAX as int, DEFAULT_PORT as int),
            r.heartbeat_timeout_ms as int == setting_in_range(text_of(heartbeat_setting), u64::MAX as int, 1, u64::MAX as int, DEFAULT_HEARTBEAT_TIMEOUT_MS as int),
            r.update_rate_ms == DEFAULT_UPDATE_RATE_MS,
    {
        F1NativeAdapter {
            bind_port: positive_u16_setting(port_setting, DEFAULT_PORT),
            update_rate_ms: DEFAULT_UPDATE_RATE_MS,
            heartbeat_timeout_ms: positive_u64_setting(heartbeat_setting, DEFAULT_HEARTBEAT_TIMEOUT_MS),
        }
    }

    /// Override the UDP bind port.
    pub fn with_port(self, port: u16) -> (r: Self)
        ensures
            r == (F1NativeAdapter { bind_port: port, ..self }),
    {
        F1NativeAdapter { bind_port: port, ..self }
    }

    pub fn game_id(&self) -> (r: &'static str)
        ensures
            r@ == "f1_native"@,
    {
        "f1_native"
    }

    pub fn expected_update_rate_ms(&self) -> (r: u64)
        ensures
            r == self.update_rate_ms,
    {
        self.update_rate_ms
    }

    /// Whether a packet received at `last_packet_ns` (0 = never) is recent.
    pub fn is_recent_packet(&self, last_packet_ns: u64, now_ns: u64) -> (r: bool)
        ensures
            r == heartbeat_fresh(last_packet_ns, now_ns, self.heartbeat_timeout_ms),
    {
        is_recent_packet(last_packet_ns, now_ns, self.heartbeat_timeout_ms)
    }

    /// Process a raw packet of format 2023 or 2024, updating `state`.
    pub fn process_packet(state: &mut F1NativeState, raw: &[u8]) -> (r: Result<Option<F125Frame>, TelemetryError>)
        ensures
            raw@.len() < HEADER_SIZE ==> r == Err::<Option<F125Frame>, TelemetryError>(
                TelemetryError::TooShort { needed: HEADER_SIZE, actual: raw@.len() as usize },
            ) && *final(state) == *old(state),
            raw@.len() >= HEADER_SIZE && !is_native_format(header_of(raw@).packet_format) ==> r
                == Err::<Option<F125Frame>, TelemetryError>(
                TelemetryError::UnexpectedFormat(header_of(raw@).packet_format),
            ) && *final(state) == *old(state),
            raw@.len() >= HEADER_SIZE && is_native_format(header_of(raw@).packet_format)
                ==> accepts(raw@, *old(state), *final(state), r, native_status(raw@)),
    {
        let header = parse_header(raw)?;
        if header.packet_format != PACKET_FORMAT_2023 && header.packet_format != PACKET_FORMAT_2024 {
            return Err(TelemetryError::UnexpectedFormat(header.packet_format));
        }
        let player = header.player_car_index as usize;
        let status = if header.packet_id != PACKET_ID_CAR_STATUS {
            Err(TelemetryError::UnsupportedPacketId(header.packet_id))
        } else if header.packet_format == PACKET_FORMAT_2023 {
            parse_car_status_2023(raw, player)
        } else {
            parse_car_status_2024(raw, player)
        };
        dispatch_packet(state, raw, header, status)
    }

    /// Normalize a single raw packet: a Car Telemetry packet gives a frame
    /// with zeroed status and session; a valid status or session packet alone
    /// cannot.
    pub fn normalize(&self, raw: &[u8]) -> (r: Result<F125Frame, TelemetryError>)
        ensures
            raw@.len() < HEADER_SIZE ==> r == Err::<F125Frame, TelemetryError>(
                TelemetryError::TooShort { needed: HEADER_SIZE, actual: raw@.len() as usize },
            ),
            raw@.len() >= HEADER_SIZE && !is_native_format(header_of(raw@).packet_format) ==> r
                == Err::<F125Frame, TelemetryError>(
                TelemetryError::UnexpectedFormat(header_of(raw@).packet_format),
            ),
            raw@.len() >= HEADER_SIZE && is_native_format(header_of(raw@).packet_format) ==> {
                let h = header_of(raw@);
                let player = h.player_car_index as usize;
                if h.packet_id == PACKET_ID_CAR_TELEMETRY {
                    if raw@.len() < MIN_CAR_TELEMETRY_PACKET_SIZE {
                        r == Err::<F125Frame, TelemetryError>(TelemetryError::TooShort { needed: MIN_CAR_TELEMETRY_PACKET_SIZE, actual: raw@.len() as usize })
                    } else if player >= NUM_CARS {
                        r == Err::<F125Frame, TelemetryError>(TelemetryError::PlayerIndexOutOfRange(player))
                    } else {
                        r matches Ok(f) && telemetry_at(f.telemetry, raw@, HEADER_SIZE + player * CAR_TELEMETRY_ENTRY_SIZE)
                            && f.status == CarStatusData::zeroed()
                            && f.session == (SessionData { track_id: 0, session_type: 0, track_temperature: 0, air_temperature: 0 })
                    }
                } else if h.packet_id == PACKET_ID_CAR_STATUS {
                    match native_status(raw@) {
                        Err(e) => r == Err::<F125Frame, TelemetryError>(e),
                        Ok(_) => r == Err::<F125Frame, TelemetryError>(TelemetryError::IncompletePacket(PACKET_ID_CAR_STATUS)),
                    }
                } else if h.packet_id == PACKET_ID_SESSION {
                    if raw@.len() < MIN_SESSION_SIZE {
                        r == Err::<F125Frame, TelemetryError>(TelemetryError::TooShort { needed: MIN_SESSION_SIZE, actual: raw@.len() as usize })
                    } else {
                        r == Err::<F125Frame, TelemetryError>(TelemetryError::IncompletePacket(PACKET_ID_SESSION))
                    }
                } else {
                    r == Err::<F125Frame, TelemetryError>(TelemetryError::UnsupportedPacketId(h.packet_id))
                }
            },
    {
        let header = parse_header(raw)?;
        if header.packet_format != PACKET_FORMAT_2023 && header.packet_format != PACKET_FORMAT_2024 {
            return Err(TelemetryError::UnexpectedFormat(header.packet_format));
        }
        let player = header.player_car_index as usize;
        if header.packet_id == PACKET_ID_CAR_TELEMETRY {
            let telemetry = parse_car_telemetry(raw, player)?;
            Ok(F125Frame { telemetry, status: CarStatusData::default_for_normalize(), session: SessionData::new() })
        } else if header.packet_id == PACKET_ID_CAR_STATUS {
            if header.packet_format == PACKET_FORMAT_2023 {
                let _ = parse_car_status_2023(raw, player)?;
            } else {
                let _ = parse_car_status_2024(raw, player)?;
            }
            Err(TelemetryError::IncompletePacket(PACKET_ID_CAR_STATUS))
        } else if header.packet_id == PACKET_ID_SESSION {
            let _ = parse_session_data(raw)?;
            Err(TelemetryError::IncompletePacket(PACKET_ID_SESSION))
        } else {
            Err(TelemetryError::UnsupportedPacketId(header.packet_id))
        }
    }
}

// ── Test-packet builders ─────────────────────────────────────────────────────

/// Game year written into a header: 23 and 24 for the native formats, the
/// format modulo 100 otherwise.
pub open spec fn game_year_of(packet_format: u16) -> u8 {
    if packet_format == 2023 {
        23
    } else if packet_format == 2024 {
        24
    } else {
        (packet_format % 100) as u8
    }
}

/// Build a minimal valid packet header (29 bytes).
pub fn build_f1_native_header_bytes(packet_format: u16, packet_id: u8, player_index: u8) -> (r: Vec<u8>)
    ensures
        r@ == header_bytes(packet_format, game_year_of(packet_format), packet_id, player_index),
{
    let game_year: u8 = if packet_format == 2023 {
        23
    } else if packet_format == 2024 {
        24
    } else {
        (packet_format % 100) as u8
    };
    let mut buf: Vec<u8> = Vec::new();
    push_header(&mut buf, packet_format, game_year, packet_id, player_index);
    assert(buf@ =~= header_bytes(packet_format, game_year_of(packet_format), packet_id, player_index));
    buf
}

/// Build a minimal valid Car Telemetry packet for the given format;
/// single-precision inputs are given as bit patterns.
pub fn build_car_telemetry_packet_native(
    packet_format: u16,
    player_index: u8,
    speed_kmh: u16,
    gear: i8,
    engine_rpm: u16,
    throttle_bits: u32,
    brake_bits: u32,
    steer_bits: u32,
    drs: u8,
    tyres_pressure_bits: [u32; 4],
) -> (r: Vec<u8>)
    requires
        player_index < 22,
    ensures
        r@ == telemetry_packet_bytes(
            header_bytes(packet_format, game_year_of(packet_format), PACKET_ID_CAR_TELEMETRY, player_index),
            player_index,
            telemetry_entry(speed_kmh, gear, engine_rpm, throttle_bits, brake_bits, steer_bits, drs, tyres_pressure_bits@),
        ),
{
    let game_year: u8 = if packet_format == 2023 {
        23
    } else if packet_format == 2024 {
        24
    } else {
        (packet_format % 100) as u8
    };
    crate::f1_25::build_telemetry_packet(packet_format, game_year, player_index, speed_kmh, gear, engine_rpm, throttle_bits, brake_bits, steer_bits, drs, tyres_pressure_bits)
}

/// The fields the status builders set, in an entry of `size` bytes whose ERS
/// store energy sits at `ers_off`.
pub open spec fn status_entry(size: int, ers_off: int, pit_limiter: u8, fuel_bits: u32, max_rpm: u16, drs_allowed: u8, compound: u8, ers_bits: u32) -> Seq<u8> {
    zeros(4) + seq![pit_limiter] + u32_le_bytes(fuel_bits as int) + zeros(8) + u16_le_bytes(max_rpm as int)
        + zeros(3) + seq![drs_allowed] + zeros(2) + seq![compound] + zeros(ers_off - 26)
        + u32_le_bytes(ers_bits as int) + zeros(size - ers_off - 4)
}

/// A Car Status packet: header, then the player's entry among 22 zeroed ones.
pub open spec fn status_packet_bytes(header: Seq<u8>, player_index: u8, size: int, entry: Seq<u8>) -> Seq<u8> {
    header + zeros(size * player_index) + entry + zeros(size * (21 - player_index))
}

pub(crate) fn build_status_packet(packet_format: u16, size: usize, ers_off: usize, player_index: u8, fuel_bits: u32, ers_bits: u32, drs_allowed: u8, pit_limiter: u8, compound: u8, max_rpm: u16) -> (r: Vec<u8>)
    requires
        player_index < 22,
        size == 47 || size == 55,
        ers_off == 29 || ers_off == 37,
        ers_off + 4 <= size,
    ensures
        r@ == status_packet_bytes(
            header_bytes(packet_format, game_year_of(packet_format), PACKET_ID_CAR_STATUS, player_index),
            player_index,
            size as int,
            status_entry(size as int, ers_off as int, pit_limiter, fuel_bits, max_rpm, drs_allowed, compound, ers_bits),
        ),
{
    let mut buf = build_f1_native_header_bytes(packet_format, PACKET_ID_CAR_STATUS, player_index);
    push_zeros(&mut buf, size * player_index as usize);
    let mut entry: Vec<u8> = Vec::new();
    push_zeros(&mut entry, 4);
    entry.push(pit_limiter);
    push_u32_le(&mut entry, fuel_bits);
    push_zeros(&mut entry, 8);
    push_u16_le(&mut entry, max_rpm);
    push_zeros(&mut entry, 3);
    entry.push(drs_allowed);
    push_zeros(&mut entry, 2);
    entry.push(compound);
    push_zeros(&mut entry, ers_off - 26);
    push_u32_le(&mut entry, ers_bits);
    push_zeros(&mut entry, size - ers_off - 4);
    assert(entry@ =~= status_entry(size as int, ers_off as int, pit_limiter, fuel_bits, max_rpm, drs_allowed, compound, ers_bits));
    buf.append(&mut entry);
    push_zeros(&mut buf, size * (21 - player_index as usize));
    buf
}

/// Build a minimal valid F1 23 Car Status packet; single-precision inputs are
/// given as bit patterns.
pub fn build_car_status_packet_f23(player_index: u8, fuel_in_tank_bits: u32, ers_store_energy_bits: u32, drs_allowed: u8, pit_limiter: u8, actual_tyre_compound: u8, max_rpm: u16) -> (r: Vec<u8>)
    requires
        player_index < 22,
    ensures
        r@ == status_packet_bytes(
            header_bytes(PACKET_FORMAT_2023, 23, PACKET_ID_CAR_STATUS, player_index),
            player_index,
            47,
            status_entry(47, 29, pit_limiter, fuel_in_tank_bits, max_rpm, drs_allowed, actual_tyre_compound, ers_store_energy_bits),
        ),
{
    build_status_packet(PACKET_FORMAT_2023, 47, 29, player_index, fuel_in_tank_bits, ers_store_energy_bits, drs_allowed, pit_limiter, actual_tyre_compound, max_rpm)
}

/// Build a minimal valid F1 24 Car Status packet; single-precision inputs are
/// given as bit patterns.
pub fn build_car_status_packet_f24(player_index: u8, fuel_in_tank_bits: u32, ers_store_energy_bits: u32, drs_allowed: u8, pit_limiter: u8, actual_tyre_compound: u8, max_rpm: u16) -> (r: Vec<u8>)
    requires
        player_index < 22,
    ensures
        r@ == status_packet_bytes(
            header_bytes(PACKET_FORMAT_2024, 24, PACKET_ID_CAR_STATUS, player_index),
            player_index,
            55,
            status_entry(55, 37, pit_limiter, fuel_in_tank_bits, max_rpm, drs_allowed, actual_tyre_compound, ers_store_energy_bits),
        ),
{
    build_status_packet(PACKET_FORMAT_2024, 55, 37, player_index, fuel_in_tank_bits, ers_store_energy_bits, drs_allowed, pit_limiter, actual_tyre_compound, max_rpm)
}


proof fn lemma_status_2023_position(header: Seq<u8>, player_index: u8, entry: Seq<u8>, k: int)
    requires
        header.len() == HEADER_SIZE,
        player_index < 22,
        entry.len() == 47,
        0 <= k < 47,
    ensures
        status_packet_bytes(header, player_index, 47, entry)[HEADER_SIZE + player_index * CAR_STATUS_2023_ENTRY_SIZE + k] == entry[k],
        status_packet_bytes(header, player_index, 47, entry).len() == MIN_CAR_STATUS_2023_PACKET_SIZE,
{
}

/// A built F1 23 Car Status packet (47-byte entries) parses back, for its
/// player, to the fields it was built from (single-precision fields through
/// the finiteness filter) with every other field zero.
#[verifier::rlimit(40)]
pub proof fn lemma_status_2023_roundtrip(
    header: Seq<u8>,
    player_index: u8,
    fuel_in_tank_bits: u32,
    ers_store_energy_bits: u32,
    drs_allowed: u8,
    pit_limiter: u8,
    actual_tyre_compound: u8,
    max_rpm: u16,
)
    requires
        header.len() == HEADER_SIZE,
        player_index < 22,
    ensures
        ({
            let d = status_packet_bytes(header, player_index, 47, status_entry(47, 29, pit_limiter, fuel_in_tank_bits, max_rpm, drs_allowed, actual_tyre_compound, ers_store_energy_bits));
            &&& d.len() == MIN_CAR_STATUS_2023_PACKET_SIZE
            &&& status_2023_at(d, HEADER_SIZE + player_index * CAR_STATUS_2023_ENTRY_SIZE) == (CarStatusData {
                pit_limiter_status: pit_limiter,
                fuel_in_tank_bits: finite_or_zero(fuel_in_tank_bits),
                max_rpm: max_rpm,
                drs_allowed: drs_allowed,
                actual_tyre_compound: actual_tyre_compound,
                ers_store_energy_bits: finite_or_zero(ers_store_energy_bits),
                ..CarStatusData::zeroed()
            })
        }),
{
    let e = status_entry(47, 29, pit_limiter, fuel_in_tank_bits, max_rpm, drs_allowed, actual_tyre_compound, ers_store_energy_bits);
    let d = status_packet_bytes(header, player_index, 47, e);
    let b = HEADER_SIZE + player_index * CAR_STATUS_2023_ENTRY_SIZE;
    assert(e.len() == 47);
    assert forall|k: int| 0 <= k < 47 implies #[trigger] d[b + k] == e[k] by {
        lemma_status_2023_position(header, player_index, e, k);
    }
    lemma_status_2023_position(header, player_index, e, 0);
    let fb = u32_le_bytes(fuel_in_tank_bits as int);
    let rb = u16_le_bytes(max_rpm as int);
    let eb = u32_le_bytes(ers_store_energy_bits as int);
    assert(e =~= zeros(4) + seq![pit_limiter] + fb + zeros(8) + rb + zeros(3) + seq![drs_allowed] + zeros(2) + seq![actual_tyre_compound] + zeros(3) + eb + zeros(14));
    assert forall|k: int| (0 <= k < 4 || 9 <= k < 17 || 19 <= k < 22 || 23 <= k < 25 || 26 <= k < 29 || 33 <= k < 47) implies #[trigger] e[k] == 0u8 by {
    }
    assert(e[4] == pit_limiter && e[22] == drs_allowed && e[25] == actual_tyre_compound);
    assert(e[5] == fb[0] && e[6] == fb[1] && e[7] == fb[2] && e[8] == fb[3]);
    assert(e[17] == rb[0] && e[18] == rb[1]);
    assert(e[29] == eb[0] && e[30] == eb[1] && e[31] == eb[2] && e[32] == eb[3]);
    assert(d[b + 5] == fb[0] && d[b + 6] == fb[1] && d[b + 7] == fb[2] && d[b + 8] == fb[3]);
    lemma_le_u32_of(d, b + 5, fuel_in_tank_bits);
    assert(d[b + 17] == rb[0] && d[b + 18] == rb[1]);
    lemma_le_u16_of(d, b + 17, max_rpm);
    assert(d[b + 29] == eb[0] && d[b + 30] == eb[1] && d[b + 31] == eb[2] && d[b + 32] == eb[3]);
    lemma_le_u32_of(d, b + 29, ers_store_energy_bits);
    assert(d[b + 13] == 0 && d[b + 14] == 0 && d[b + 15] == 0 && d[b + 16] == 0);
    assert(d[b + 34] == 0 && d[b + 35] == 0 && d[b + 36] == 0 && d[b + 37] == 0);
    assert(d[b + 38] == 0 && d[b + 39] == 0 && d[b + 40] == 0 && d[b + 41] == 0);
    assert(d[b + 42] == 0 && d[b + 43] == 0 && d[b + 44] == 0 && d[b + 45] == 0);
    assert(d[b] == 0 && d[b + 1] == 0 && d[b + 27] == 0 && d[b + 33] == 0);
    assert(le_u32(d, b + 13) == 0);
    assert(le_u32(d, b + 34) == 0);
    assert(le_u32(d, b + 38) == 0);
    assert(le_u32(d, b + 42) == 0);
}

} // verus!
