//! ACC (Assetto Corsa Competizione) broadcasting protocol v4: outbound
//! command packets, inbound message decoding, and the session state that
//! decides which car update becomes a telemetry frame.
use crate::acc_reader::{
    read_acc_string, sp_bool, sp_exact, sp_float, sp_i32, sp_string, sp_u16, sp_u8,
    string_encoding, write_acc_string, PacketReader,
};
use crate::bytes::{i32_bits, push_i32_le, u32_le_bytes};
use crate::error::TelemetryError;
use std::collections::HashMap;
use vstd::prelude::*;
use vstd::utf8::encode_utf8;

verus! {

broadcast use vstd::std_specs::hash::group_hash_axioms;

pub const REGISTER_COMMAND_APPLICATION: u8 = 1;
pub const REQUEST_ENTRY_LIST: u8 = 10;
pub const REQUEST_TRACK_DATA: u8 = 11;
pub const PROTOCOL_VERSION: u8 = 4;

pub const MSG_REGISTRATION_RESULT: u8 = 1;
pub const MSG_REALTIME_UPDATE: u8 = 2;
pub const MSG_REALTIME_CAR_UPDATE: u8 = 3;
pub const MSG_ENTRY_LIST: u8 = 4;
pub const MSG_TRACK_DATA: u8 = 5;
pub const MSG_ENTRY_LIST_CAR: u8 = 6;
pub const MSG_BROADCASTING_EVENT: u8 = 7;

pub const DEFAULT_ACC_PORT: u16 = 9000;
pub const MAX_PACKET_SIZE: usize = 4096;

// ── Message types ────────────────────────────────────────────────────────────

/// Reply to a registration request.
pub struct RegistrationResult {
    pub connection_id: i32,
    pub success: bool,
    pub readonly: bool,
    pub error: String,
}

/// The contents of a [`RegistrationResult`], its error text as characters.
pub struct RegistrationModel {
    pub connection_id: i32,
    pub success: bool,
    pub readonly: bool,
    pub error: Seq<char>,
}

impl View for RegistrationResult {
    type V = RegistrationModel;

    open spec fn view(&self) -> RegistrationModel {
        RegistrationModel {
            connection_id: self.connection_id,
            success: self.success,
            readonly: self.readonly,
            error: self.error@,
        }
    }
}

/// Session-wide realtime data. `session_time_bits` is the raw single-precision
/// pattern (non-finite values read as `+0.0`); rain and wetness are the raw
/// tenths reported by the game.
#[derive(Debug, Clone, Copy, PartialEq, Eq, Structural)]
pub struct RealtimeUpdate {
    pub focused_car_index: Option<u16>,
    pub session_time_bits: u32,
    pub ambient_temp_c: u8,
    pub track_temp_c: u8,
    pub rain_level_raw: u8,
    pub wetness_raw: u8,
}

/// Per-car realtime data.
#[derive(Debug, Clone, Copy, PartialEq, Eq, Structural)]
pub struct RealtimeCarUpdate {
    pub car_index: u16,
    pub gear: i8,
    pub car_location: u8,
    pub speed_kmh: u16,
    pub position: u16,
    pub cup_position: u16,
    pub track_position: u16,
    pub laps: u16,
    pub delta_ms: i32,
}

/// Track information.
pub struct TrackData {
    pub track_name: String,
}

/// A decoded inbound datagram.
pub enum ACCInboundMessage {
    RegistrationResult(RegistrationResult),
    RealtimeUpdate(RealtimeUpdate),
    RealtimeCarUpdate(RealtimeCarUpdate),
    TrackData(TrackData),
    EntryList,
    EntryListCar,
    BroadcastingEvent,
    Unknown(u8),
}

/// The contents of an [`ACCInboundMessage`], strings as characters.
pub enum InboundModel {
    RegistrationResult(RegistrationModel),
    RealtimeUpdate(RealtimeUpdate),
    RealtimeCarUpdate(RealtimeCarUpdate),
    TrackData(Seq<char>),
    EntryList,
    EntryListCar,
    BroadcastingEvent,
    Unknown(u8),
}

impl View for ACCInboundMessage {
    type V = InboundModel;

    open spec fn view(&self) -> InboundModel {
        match self {
            ACCInboundMessage::RegistrationResult(r) => InboundModel::RegistrationResult(r@),
            ACCInboundMessage::RealtimeUpdate(u) => InboundModel::RealtimeUpdate(*u),
            ACCInboundMessage::RealtimeCarUpdate(u) => InboundModel::RealtimeCarUpdate(*u),
            ACCInboundMessage::TrackData(t) => InboundModel::TrackData(t.track_name@),
            ACCInboundMessage::EntryList => InboundModel::EntryList,
            ACCInboundMessage::EntryListCar => InboundModel::EntryListCar,
            ACCInboundMessage::BroadcastingEvent => InboundModel::BroadcastingEvent,
            ACCInboundMessage::Unknown(t) => InboundModel::Unknown(*t),
        }
    }
}

// ── Wire model ───────────────────────────────────────────────────────────────

/// `n` consecutive fields of `width` bytes each.
pub open spec fn sp_repeat(d: Seq<u8>, off: int, n: nat, width: int) -> Result<int, TelemetryError>
    decreases n,
{
    if n == 0 {
        Ok(off)
    } else {
        match sp_exact(d, off, width) {
            Err(e) => Err(e),
            Ok(o) => sp_repeat(d, o, (n - 1) as nat, width),
        }
    }
}

/// `n` consecutive strings.
pub open spec fn sp_strings(d: Seq<u8>, off: int, n: nat) -> Result<int, TelemetryError>
    decreases n,
{
    if n == 0 {
        Ok(off)
    } else {
        match sp_string(d, off) {
            Err(e) => Err(e),
            Ok((_s, o)) => sp_strings(d, o, (n - 1) as nat),
        }
    }
}

/// `n` camera sets: a name, a camera count, then that many camera names.
pub open spec fn sp_camera_sets(d: Seq<u8>, off: int, n: nat) -> Result<int, TelemetryError>
    decreases n,
{
    if n == 0 {
        Ok(off)
    } else {
        match sp_string(d, off) {
            Err(e) => Err(e),
            Ok((_set_name, o1)) =>
            match sp_u8(d, o1) {
                Err(e) => Err(e),
                Ok((cameras, o2)) =>
                match sp_strings(d, o2, cameras as nat) {
                    Err(e) => Err(e),
                    Ok(o3) =>
                    sp_camera_sets(d, o3, (n - 1) as nat)
                }
            }
        }
    }
}

/// `n` driver records: three names, a category byte and a nationality.
pub open spec fn sp_drivers(d: Seq<u8>, off: int, n: nat) -> Result<int, TelemetryError>
    decreases n,
{
    if n == 0 {
        Ok(off)
    } else {
        match sp_string(d, off) {
            Err(e) => Err(e),
            Ok((_first, o1)) =>
            match sp_string(d, o1) {
                Err(e) => Err(e),
                Ok((_last, o2)) =>
                match sp_string(d, o2) {
                    Err(e) => Err(e),
                    Ok((_short, o3)) =>
                    match sp_exact(d, o3, 1) {
                        Err(e) => Err(e),
                        Ok(o4) =>
                        match sp_exact(d, o4, 2) {
                            Err(e) => Err(e),
                            Ok(o5) =>
                            sp_drivers(d, o5, (n - 1) as nat)
                        }
                    }
                }
            }
        }
    }
}

/// The two replay times that follow the replay flag when it is set.
pub open spec fn sp_replay(d: Seq<u8>, off: int, replay: bool) -> Result<int, TelemetryError> {
    if !replay {
        Ok(off)
    } else {
        match sp_exact(d, off, 4) {
            Err(e) => Err(e),
            Ok(o) => sp_exact(d, o, 4),
        }
    }
}

/// A lap record; its value is the lap time in milliseconds.
pub open spec fn sp_lap_time(d: Seq<u8>, off: int) -> Result<(i32, int), TelemetryError> {
    match sp_i32(d, off) {
        Err(e) => Err(e),
        Ok((lap_time_ms, o1)) =>
        match sp_exact(d, o1, 2) {
            Err(e) => Err(e),
            Ok(o2) =>
            match sp_exact(d, o2, 2) {
                Err(e) => Err(e),
                Ok(o3) =>
                match sp_u8(d, o3) {
                    Err(e) => Err(e),
                    Ok((split_count, o4)) =>
                    match sp_repeat(d, o4, split_count as nat, 4) {
                        Err(e) => Err(e),
                        Ok(o5) =>
                        match sp_exact(d, o5, 1) {
                            Err(e) => Err(e),
                            Ok(o6) =>
                            match sp_exact(d, o6, 1) {
                                Err(e) => Err(e),
                                Ok(o7) =>
                                match sp_exact(d, o7, 1) {
                                    Err(e) => Err(e),
                                    Ok(o8) =>
                                    match sp_exact(d, o8, 1) {
                                        Err(e) => Err(e),
                                        Ok(o9) =>
                                        Ok((lap_time_ms, o9))
                                    }
                                }
                            }
                        }
                    }
                }
            }
        }
    }
}

/// A registration result body (after the message-type byte). The protocol
/// reports read-only access as a zero byte.
pub open spec fn sp_registration(d: Seq<u8>, off: int) -> Result<(RegistrationModel, int), TelemetryError> {
    match sp_i32(d, off) {
        Err(e) => Err(e),
        Ok((connection_id, o1)) =>
        match sp_bool(d, o1) {
            Err(e) => Err(e),
            Ok((success, o2)) =>
            match sp_u8(d, o2) {
                Err(e) => Err(e),
                Ok((readonly_raw, o3)) =>
                match sp_string(d, o3) {
                    Err(e) => Err(e),
                    Ok((error, o4)) =>
                    Ok((RegistrationModel { connection_id, success, readonly: readonly_raw == 0, error }, o4))
                }
            }
        }
    }
}

/// The focused car index, when the signed wire value fits in 16 unsigned bits.
pub open spec fn focused_index_of(raw: i32) -> Option<u16> {
    if 0 <= raw && raw <= u16::MAX {
        Some(raw as u16)
    } else {
        None
    }
}

/// A realtime update body.
pub open spec fn sp_realtime_update(d: Seq<u8>, off: int) -> Result<(RealtimeUpdate, int), TelemetryError> {
    match sp_exact(d, off, 2) {
        Err(e) => Err(e),
        Ok(o1) =>
        match sp_exact(d, o1, 2) {
            Err(e) => Err(e),
            Ok(o2) =>
            match sp_exact(d, o2, 1) {
                Err(e) => Err(e),
                Ok(o3) =>
                match sp_exact(d, o3, 1) {
                    Err(e) => Err(e),
                    Ok(o4) =>
                    match sp_float(d, o4) {
                        Err(e) => Err(e),
                        Ok((session_time_bits, o5)) =>
                        match sp_exact(d, o5, 4) {
                            Err(e) => Err(e),
                            Ok(o6) =>
                            match sp_i32(d, o6) {
                                Err(e) => Err(e),
                                Ok((focused_raw, o7)) =>
                                match sp_string(d, o7) {
                                    Err(e) => Err(e),
                                    Ok((_camera_set, o8)) =>
                                    match sp_string(d, o8) {
                                        Err(e) => Err(e),
                                        Ok((_camera, o9)) =>
                                        match sp_string(d, o9) {
                                            Err(e) => Err(e),
                                            Ok((_hud_page, o10)) =>
                                            match sp_bool(d, o10) {
                                                Err(e) => Err(e),
                                                Ok((replay, o11)) =>
                                                match sp_replay(d, o11, replay) {
                                                    Err(e) => Err(e),
                                                    Ok(o12) =>
                                                    match sp_exact(d, o12, 4) {
                                                        Err(e) => Err(e),
                                                        Ok(o13) =>
                                                        match sp_u8(d, o13) {
                                                            Err(e) => Err(e),
                                                            Ok((ambient_temp_c, o14)) =>
                                                            match sp_u8(d, o14) {
                                                                Err(e) => Err(e),
                                                                Ok((track_temp_c, o15)) =>
                                                                match sp_exact(d, o15, 1) {
                                                                    Err(e) => Err(e),
                                                                    Ok(o16) =>
                                                                    match sp_u8(d, o16) {
                                                                        Err(e) => Err(e),
                                                                        Ok((rain_level_raw, o17)) =>
                                                                        match sp_u8(d, o17) {
                                                                            Err(e) => Err(e),
                                                                            Ok((wetness_raw, o18)) =>
                                                                            match sp_lap_time(d, o18) {
                                                                                Err(e) => Err(e),
                                                                                Ok((_best, o19)) =>
                                                                                Ok((RealtimeUpdate { focused_car_index: focused_index_of(focused_raw), session_time_bits, ambient_temp_c, track_temp_c, rain_level_raw, wetness_raw }, o19))
                                                                            }
                                                                        }
                                                                    }
                                                                }
                                                            }
                                                        }
                                                    }
                                                }
                                            }
                                        }
                                    }
                                }
                            }
                        }
                    }
                }
            }
        }
    }
}

/// The gear of a raw gear byte: the byte less two (reverse is -1), at most 127.
pub open spec fn gear_of_raw(raw: u8) -> i8 {
    if raw as int - 2 > 127 {
        127i8
    } else {
        (raw as int - 2) as i8
    }
}

/// A realtime car update body.
pub open spec fn sp_realtime_car_update(d: Seq<u8>, off: int) -> Result<(RealtimeCarUpdate, int), TelemetryError> {
    match sp_u16(d, off) {
        Err(e) => Err(e),
        Ok((car_index, o1)) =>
        match sp_exact(d, o1, 2) {
            Err(e) => Err(e),
            Ok(o2) =>
            match sp_exact(d, o2, 1) {
                Err(e) => Err(e),
                Ok(o3) =>
                match sp_u8(d, o3) {
                    Err(e) => Err(e),
                    Ok((gear_raw, o4)) =>
                    match sp_exact(d, o4, 4) {
                        Err(e) => Err(e),
                        Ok(o5) =>
                        match sp_exact(d, o5, 4) {
                            Err(e) => Err(e),
                            Ok(o6) =>
                            match sp_exact(d, o6, 4) {
                                Err(e) => Err(e),
                                Ok(o7) =>
                                match sp_u8(d, o7) {
                                    Err(e) => Err(e),
                                    Ok((car_location, o8)) =>
                                    match sp_u16(d, o8) {
                                        Err(e) => Err(e),
                                        Ok((speed_kmh, o9)) =>
                                        match sp_u16(d, o9) {
                                            Err(e) => Err(e),
                                            Ok((position, o10)) =>
                                            match sp_u16(d, o10) {
                                                Err(e) => Err(e),
                                                Ok((cup_position, o11)) =>
                                                match sp_u16(d, o11) {
                                                    Err(e) => Err(e),
                                                    Ok((track_position, o12)) =>
                                                    match sp_exact(d, o12, 4) {
                                                        Err(e) => Err(e),
                                                        Ok(o13) =>
                                                        match sp_u16(d, o13) {
                                                            Err(e) => Err(e),
                                                            Ok((laps, o14)) =>
                                                            match sp_i32(d, o14) {
                                                                Err(e) => Err(e),
                                                                Ok((delta_ms, o15)) =>
                                                                match sp_lap_time(d, o15) {
                                                                    Err(e) => Err(e),
                                                                    Ok((_best, o16)) =>
                                                                    match sp_lap_time(d, o16) {
                                                                        Err(e) => Err(e),
                                                                        Ok((_last, o17)) =>
                                                                        match sp_lap_time(d, o17) {
                                                                            Err(e) => Err(e),
                                                                            Ok((_current, o18)) =>
                                                                            Ok((RealtimeCarUpdate { car_index, gear: gear_of_raw(gear_raw), car_location, speed_kmh, position, cup_position, track_position, laps, delta_ms }, o18))
                                                                        }
                                                                    }
                                                                }
                                                            }
                                                        }
                                                    }
                                                }
                                            }
                                        }
                                    }
                                }
                            }
                        }
                    }
                }
            }
        }
    }
}

/// Where a realtime car update's values sit in its datagram (message type 3
/// at byte 0): the car index is the little-endian u16 at bytes 1..3, the
/// gear byte is byte 6 (less two), the location byte 19, then the u16
/// speed at 20..22, overall position at 22..24, cup position at 24..26 and
/// track position at 26..28, the lap count at 32..34 and the delta at
/// 34..38.
pub proof fn lemma_car_update_layout(d: Seq<u8>)
    ensures
        sp_inbound(d) matches Ok(InboundModel::RealtimeCarUpdate(m)) ==> (
            d[0] == 3
            && m.car_index == d[1] as int + 256 * d[2] as int
            && (d[6] as int - 2 <= 127 ==> m.gear == d[6] as int - 2)
            && m.car_location == d[19]
            && m.speed_kmh == d[20] as int + 256 * d[21] as int
            && m.position == d[22] as int + 256 * d[23] as int
            && m.cup_position == d[24] as int + 256 * d[25] as int
            && m.track_position == d[26] as int + 256 * d[27] as int
            && m.laps == d[32] as int + 256 * d[33] as int
            && m.delta_ms == crate::bytes::le_i32(d, 34)
        ),
{
}

/// An entry list body.
pub open spec fn sp_entry_list(d: Seq<u8>, off: int) -> Result<int, TelemetryError> {
    match sp_exact(d, off, 4) {
        Err(e) => Err(e),
        Ok(o1) =>
        match sp_u16(d, o1) {
            Err(e) => Err(e),
            Ok((count, o2)) =>
            sp_repeat(d, o2, count as nat, 2)
        }
    }
}

/// A track data body; its value is the track name.
pub open spec fn sp_track_data(d: Seq<u8>, off: int) -> Result<(Seq<char>, int), TelemetryError> {
    match sp_exact(d, off, 4) {
        Err(e) => Err(e),
        Ok(o1) =>
        match sp_string(d, o1) {
            Err(e) => Err(e),
            Ok((track_name, o2)) =>
            match sp_exact(d, o2, 4) {
                Err(e) => Err(e),
                Ok(o3) =>
                match sp_exact(d, o3, 4) {
                    Err(e) => Err(e),
                    Ok(o4) =>
                    match sp_u8(d, o4) {
                        Err(e) => Err(e),
                        Ok((sets, o5)) =>
                        match sp_camera_sets(d, o5, sets as nat) {
                            Err(e) => Err(e),
                            Ok(o6) =>
                            match sp_u8(d, o6) {
                                Err(e) => Err(e),
                                Ok((pages, o7)) =>
                                match sp_strings(d, o7, pages as nat) {
                                    Err(e) => Err(e),
                                    Ok(o8) =>
                                    Ok((track_name, o8))
                                }
                            }
                        }
                    }
                }
            }
        }
    }
}

/// An entry-list car body.
pub open spec fn sp_entry_list_car(d: Seq<u8>, off: int) -> Result<int, TelemetryError> {
    match sp_exact(d, off, 2) {
        Err(e) => Err(e),
        Ok(o1) =>
        match sp_exact(d, o1, 1) {
            Err(e) => Err(e),
            Ok(o2) =>
            match sp_string(d, o2) {
                Err(e) => Err(e),
                Ok((_team, o3)) =>
                match sp_exact(d, o3, 4) {
                    Err(e) => Err(e),
                    Ok(o4) =>
                    match sp_exact(d, o4, 1) {
                        Err(e) => Err(e),
                        Ok(o5) =>
                        match sp_exact(d, o5, 1) {
                            Err(e) => Err(e),
                            Ok(o6) =>
                            match sp_exact(d, o6, 2) {
                                Err(e) => Err(e),
                                Ok(o7) =>
                                match sp_u8(d, o7) {
                                    Err(e) => Err(e),
                                    Ok((drivers, o8)) =>
                                    sp_drivers(d, o8, drivers as nat)
                                }
                            }
                        }
                    }
                }
            }
        }
    }
}

/// A broadcasting event body.
pub open spec fn sp_broadcasting_event(d: Seq<u8>, off: int) -> Result<int, TelemetryError> {
    match sp_exact(d, off, 1) {
        Err(e) => Err(e),
        Ok(o1) =>
        match sp_string(d, o1) {
            Err(e) => Err(e),
            Ok((_message, o2)) =>
            match sp_exact(d, o2, 4) {
                Err(e) => Err(e),
                Ok(o3) =>
                sp_exact(d, o3, 4)
            }
        }
    }
}

/// The message a whole datagram decodes to.
pub open spec fn sp_inbound(d: Seq<u8>) -> Result<InboundModel, TelemetryError> {
    match sp_u8(d, 0) {
        Err(e) => Err(e),
        Ok((t, o)) => if t == MSG_REGISTRATION_RESULT {
            match sp_registration(d, o) {
                Err(e) => Err(e),
                Ok((m, _o)) => Ok(InboundModel::RegistrationResult(m)),
            }
        } else if t == MSG_REALTIME_UPDATE {
            match sp_realtime_update(d, o) {
                Err(e) => Err(e),
                Ok((m, _o)) => Ok(InboundModel::RealtimeUpdate(m)),
            }
        } else if t == MSG_REALTIME_CAR_UPDATE {
            match sp_realtime_car_update(d, o) {
                Err(e) => Err(e),
                Ok((m, _o)) => Ok(InboundModel::RealtimeCarUpdate(m)),
            }
        } else if t == MSG_ENTRY_LIST {
            match sp_entry_list(d, o) {
                Err(e) => Err(e),
                Ok(_o) => Ok(InboundModel::EntryList),
            }
        } else if t == MSG_TRACK_DATA {
            match sp_track_data(d, o) {
                Err(e) => Err(e),
                Ok((m, _o)) => Ok(InboundModel::TrackData(m)),
            }
        } else if t == MSG_ENTRY_LIST_CAR {
            match sp_entry_list_car(d, o) {
                Err(e) => Err(e),
                Ok(_o) => Ok(InboundModel::EntryListCar),
            }
        } else if t == MSG_BROADCASTING_EVENT {
            match sp_broadcasting_event(d, o) {
                Err(e) => Err(e),
                Ok(_o) => Ok(InboundModel::BroadcastingEvent),
            }
        } else {
            Ok(InboundModel::Unknown(t))
        },
    }
}

// ── Decoding ─────────────────────────────────────────────────────────────────

/// Skips `count` fields of `width` bytes each.
fn skip_repeat(reader: &mut PacketReader<'_>, count: usize, width: usize) -> (r: Result<
    (),
    TelemetryError,
>)
    ensures
        final(reader).data@ == old(reader).data@,
        match sp_repeat(old(reader).data@, old(reader).offset as int, count as nat, width as int) {
            Ok(o) => r is Ok && final(reader).offset == o,
            Err(e) => r == Err::<(), TelemetryError>(e),
        },
{
    let ghost d = reader.data@;
    let ghost start = reader.offset as int;
    let mut i: usize = 0;
    while i < count
        invariant
            i <= count,
            reader.data@ == d,
            d == old(reader).data@,
            start == old(reader).offset as int,
            sp_repeat(d, start, count as nat, width as int) == sp_repeat(
                d,
                reader.offset as int,
                (count - i) as nat,
                width as int,
            ),
        decreases count - i,
    {
        reader.read_exact(width)?;
        i = i + 1;
    }
    Ok(())
}

/// Skips `count` strings.
fn skip_strings(reader: &mut PacketReader<'_>, count: usize) -> (r: Result<(), TelemetryError>)
    ensures
        final(reader).data@ == old(reader).data@,
        match sp_strings(old(reader).data@, old(reader).offset as int, count as nat) {
            Ok(o) => r is Ok && final(reader).offset == o,
            Err(e) => r == Err::<(), TelemetryError>(e),
        },
{
    let ghost d = reader.data@;
    let ghost start = reader.offset as int;
    let mut i: usize = 0;
    while i < count
        invariant
            i <= count,
            reader.data@ == d,
            d == old(reader).data@,
            start == old(reader).offset as int,
            sp_strings(d, start, count as nat) == sp_strings(
                d,
                reader.offset as int,
                (count - i) as nat,
            ),
        decreases count - i,
    {
        let _name = read_acc_string(reader)?;
        i = i + 1;
    }
    Ok(())
}

fn read_lap_time_ms(reader: &mut PacketReader<'_>) -> (r: Result<i32, TelemetryError>)
        ensures
            final(reader).data@ == old(reader).data@,
            match sp_lap_time(old(reader).data@, old(reader).offset as int) {
                Ok((v, o)) => r == Ok::<i32, TelemetryError>(v) && final(reader).offset == o,
                Err(e) => r matches Err(x) && x == e,
            },
{
    let lap_time_ms = reader.read_i32_le()?;
    let _car_index = reader.read_u16_le()?;
    let _driver_index = reader.read_u16_le()?;
    let split_count = reader.read_u8()? as usize;
    skip_repeat(reader, split_count, 4)?;
    let _is_invalid = reader.read_bool_u8()?;
    let _is_valid_for_best = reader.read_bool_u8()?;
    let _is_outlap = reader.read_bool_u8()?;
    let _is_inlap = reader.read_bool_u8()?;
    Ok(lap_time_ms)
}

fn parse_registration_result(reader: &mut PacketReader<'_>) -> (r: Result<
    RegistrationResult,
    TelemetryError,
>)
        ensures
            final(reader).data@ == old(reader).data@,
            match sp_registration(old(reader).data@, old(reader).offset as int) {
                Ok((m, o)) => r matches Ok(v) && v@ == m && final(reader).offset == o,
                Err(e) => r matches Err(x) && x == e,
            },
{
    let connection_id = reader.read_i32_le()?;
    let success = reader.read_bool_u8()?;
    let readonly = reader.read_u8()? == 0;
    let error = read_acc_string(reader)?;
    Ok(RegistrationResult { connection_id, success, readonly, error })
}

fn focused_index(raw: i32) -> (r: Option<u16>)
    ensures
        r == focused_index_of(raw),
{
    if raw >= 0 && raw <= 0xFFFF {
        Some(raw as u16)
    } else {
        None
    }
}

fn parse_realtime_update(reader: &mut PacketReader<'_>) -> (r: Result<RealtimeUpdate, TelemetryError>)
        ensures
            final(reader).data@ == old(reader).data@,
            match sp_realtime_update(old(reader).data@, old(reader).offset as int) {
                Ok((m, o)) => r == Ok::<RealtimeUpdate, TelemetryError>(m) && final(reader).offset == o,
                Err(e) => r matches Err(x) && x == e,
            },
{
    let _event_index = reader.read_u16_le()?;
    let _session_index = reader.read_u16_le()?;
    let _session_type = reader.read_u8()?;
    let _phase = reader.read_u8()?;
    let session_time_bits = reader.read_float_bits()?;
    let _session_end_time = reader.read_float_bits()?;
    let focused_car_index_raw = reader.read_i32_le()?;
    let focused_car_index = focused_index(focused_car_index_raw);
    let _active_camera_set = read_acc_string(reader)?;
    let _active_camera = read_acc_string(reader)?;
    let _current_hud_page = read_acc_string(reader)?;
    let is_replay_playing = reader.read_bool_u8()?;
    if is_replay_playing {
        let _replay_session_time = reader.read_float_bits()?;
        let _replay_remaining_time = reader.read_float_bits()?;
    }
    let _time_of_day = reader.read_float_bits()?;
    let ambient_temp_c = reader.read_u8()?;
    let track_temp_c = reader.read_u8()?;
    let _clouds = reader.read_u8()?;
    let rain_level_raw = reader.read_u8()?;
    let wetness_raw = reader.read_u8()?;
    let _best_session_lap = read_lap_time_ms(reader)?;
    Ok(
        RealtimeUpdate {
            focused_car_index,
            session_time_bits,
            ambient_temp_c,
            track_temp_c,
            rain_level_raw,
            wetness_raw,
        },
    )
}

fn gear_from_raw(raw: u8) -> (r: i8)
    ensures
        r == gear_of_raw(raw),
{
    let g = raw as i16 - 2;
    if g > 127 {
        127
    } else {
        g as i8
    }
}

fn parse_realtime_car_update(reader: &mut PacketReader<'_>) -> (r: Result<
    RealtimeCarUpdate,
    TelemetryError,
>)
        ensures
            final(reader).data@ == old(reader).data@,
            match sp_realtime_car_update(old(reader).data@, old(reader).offset as int) {
                Ok((m, o)) => r == Ok::<RealtimeCarUpdate, TelemetryError>(m) && final(reader).offset == o,
                Err(e) => r matches Err(x) && x == e,
            },
{
    let car_index = reader.read_u16_le()?;
    let _driver_index = reader.read_u16_le()?;
    let _driver_count = reader.read_u8()?;
    let gear_raw = reader.read_u8()?;
    let gear = gear_from_raw(gear_raw);
    let _world_pos_x = reader.read_float_bits()?;
    let _world_pos_y = reader.read_float_bits()?;
    let _yaw = reader.read_float_bits()?;
    let car_location = reader.read_u8()?;
    let speed_kmh = reader.read_u16_le()?;
    let position = reader.read_u16_le()?;
    let cup_position = reader.read_u16_le()?;
    let track_position = reader.read_u16_le()?;
    let _spline_position = reader.read_float_bits()?;
    let laps = reader.read_u16_le()?;
    let delta_ms = reader.read_i32_le()?;
    let _best_session_lap = read_lap_time_ms(reader)?;
    let _last_lap = read_lap_time_ms(reader)?;
    let _current_lap = read_lap_time_ms(reader)?;
    Ok(
        RealtimeCarUpdate {
            car_index,
            gear,
            car_location,
            speed_kmh,
            position,
            cup_position,
            track_position,
            laps,
            delta_ms,
        },
    )
}

fn parse_entry_list(reader: &mut PacketReader<'_>) -> (r: Result<(), TelemetryError>)
    ensures
        final(reader).data@ == old(reader).data@,
        match sp_entry_list(old(reader).data@, old(reader).offset as int) {
            Ok(o) => r is Ok && final(reader).offset == o,
            Err(e) => r == Err::<(), TelemetryError>(e),
        },
{
    let _connection_id = reader.read_i32_le()?;
    let car_count = reader.read_u16_le()? as usize;
    skip_repeat(reader, car_count, 2)
}

fn skip_camera_sets(reader: &mut PacketReader<'_>, count: usize) -> (r: Result<(), TelemetryError>)
    ensures
        final(reader).data@ == old(reader).data@,
        match sp_camera_sets(old(reader).data@, old(reader).offset as int, count as nat) {
            Ok(o) => r is Ok && final(reader).offset == o,
            Err(e) => r == Err::<(), TelemetryError>(e),
        },
{
    let ghost d = reader.data@;
    let ghost start = reader.offset as int;
    let mut i: usize = 0;
    while i < count
        invariant
            i <= count,
            reader.data@ == d,
            d == old(reader).data@,
            start == old(reader).offset as int,
            sp_camera_sets(d, start, count as nat) == sp_camera_sets(
                d,
                reader.offset as int,
                (count - i) as nat,
            ),
        decreases count - i,
    {
        let _camera_set_name = read_acc_string(reader)?;
        let camera_count = reader.read_u8()? as usize;
        skip_strings(reader, camera_count)?;
        i = i + 1;
    }
    Ok(())
}

fn parse_track_data(reader: &mut PacketReader<'_>) -> (r: Result<TrackData, TelemetryError>)
        ensures
            final(reader).data@ == old(reader).data@,
            match sp_track_data(old(reader).data@, old(reader).offset as int) {
                Ok((m, o)) => r matches Ok(v) && v.track_name@ == m && final(reader).offset == o,
                Err(e) => r matches Err(x) && x == e,
            },
{
    let _connection_id = reader.read_i32_le()?;
    let track_name = read_acc_string(reader)?;
    let _track_id = reader.read_i32_le()?;
    let _track_meters = reader.read_i32_le()?;
    let camera_set_count = reader.read_u8()? as usize;
    skip_camera_sets(reader, camera_set_count)?;
    let hud_pages_count = reader.read_u8()? as usize;
    skip_strings(reader, hud_pages_count)?;
    Ok(TrackData { track_name })
}

fn skip_drivers(reader: &mut PacketReader<'_>, count: usize) -> (r: Result<(), TelemetryError>)
    ensures
        final(reader).data@ == old(reader).data@,
        match sp_drivers(old(reader).data@, old(reader).offset as int, count as nat) {
            Ok(o) => r is Ok && final(reader).offset == o,
            Err(e) => r == Err::<(), TelemetryError>(e),
        },
{
    let ghost d = reader.data@;
    let ghost start = reader.offset as int;
    let mut i: usize = 0;
    while i < count
        invariant
            i <= count,
            reader.data@ == d,
            d == old(reader).data@,
            start == old(reader).offset as int,
            sp_drivers(d, start, count as nat) == sp_drivers(
                d,
                reader.offset as int,
                (count - i) as nat,
            ),
        decreases count - i,
    {
        let _first_name = read_acc_string(reader)?;
        let _last_name = read_acc_string(reader)?;
        let _short_name = read_acc_string(reader)?;
        let _category = reader.read_u8()?;
        let _driver_nationality = reader.read_u16_le()?;
        i = i + 1;
    }
    Ok(())
}

fn parse_entry_list_car(reader: &mut PacketReader<'_>) -> (r: Result<(), TelemetryError>)
    ensures
        final(reader).data@ == old(reader).data@,
        match sp_entry_list_car(old(reader).data@, old(reader).offset as int) {
            Ok(o) => r is Ok && final(reader).offset == o,
            Err(e) => r == Err::<(), TelemetryError>(e),
        },
{
    let _car_index = reader.read_u16_le()?;
    let _car_model_type = reader.read_u8()?;
    let _team_name = read_acc_string(reader)?;
    let _race_number = reader.read_i32_le()?;
    let _cup_category = reader.read_u8()?;
    let _current_driver_index = reader.read_u8()?;
    let _nationality = reader.read_u16_le()?;
    let drivers_count = reader.read_u8()? as usize;
    skip_drivers(reader, drivers_count)
}

fn parse_broadcasting_event(reader: &mut PacketReader<'_>) -> (r: Result<(), TelemetryError>)
    ensures
        final(reader).data@ == old(reader).data@,
        match sp_broadcasting_event(old(reader).data@, old(reader).offset as int) {
            Ok(o) => r is Ok && final(reader).offset == o,
            Err(e) => r == Err::<(), TelemetryError>(e),
        },
{
    let _kind = reader.read_u8()?;
    let _message = read_acc_string(reader)?;
    let _time_ms = reader.read_i32_le()?;
    let _car_id = reader.read_i32_le()?;
    Ok(())
}

/// Decodes one inbound datagram.
pub fn parse_inbound_message(data: &[u8]) -> (r: Result<ACCInboundMessage, TelemetryError>)
    ensures
        match sp_inbound(data@) {
            Ok(m) => r matches Ok(v) && v@ == m,
            Err(e) => r matches Err(x) && x == e,
        },
{
    let mut reader = PacketReader::new(data);
    let message_type = reader.read_u8()?;
    let message = if message_type == MSG_REGISTRATION_RESULT {
        ACCInboundMessage::RegistrationResult(parse_registration_result(&mut reader)?)
    } else if message_type == MSG_REALTIME_UPDATE {
        ACCInboundMessage::RealtimeUpdate(parse_realtime_update(&mut reader)?)
    } else if message_type == MSG_REALTIME_CAR_UPDATE {
        ACCInboundMessage::RealtimeCarUpdate(parse_realtime_car_update(&mut reader)?)
    } else if message_type == MSG_ENTRY_LIST {
        parse_entry_list(&mut reader)?;
        ACCInboundMessage::EntryList
    } else if message_type == MSG_TRACK_DATA {
        ACCInboundMessage::TrackData(parse_track_data(&mut reader)?)
    } else if message_type == MSG_ENTRY_LIST_CAR {
        parse_entry_list_car(&mut reader)?;
        ACCInboundMessage::EntryListCar
    } else if message_type == MSG_BROADCASTING_EVENT {
        parse_broadcasting_event(&mut reader)?;
        ACCInboundMessage::BroadcastingEvent
    } else {
        ACCInboundMessage::Unknown(message_type)
    };
    Ok(message)
}

// ── Outbound packets ─────────────────────────────────────────────────────────

/// The registration request for the given credentials and update interval.
pub open spec fn register_packet(
    display_name: Seq<char>,
    connection_password: Seq<char>,
    update_interval_ms: i32,
    command_password: Seq<char>,
) -> Seq<u8> {
    seq![REGISTER_COMMAND_APPLICATION, PROTOCOL_VERSION] + string_encoding(display_name)
        + string_encoding(connection_password) + u32_le_bytes(i32_bits(update_interval_ms as int))
        + string_encoding(command_password)
}

/// Whether a string fits behind a 16-bit length prefix.
pub open spec fn encodable(s: Seq<char>) -> bool {
    encode_utf8(s).len() <= u16::MAX
}

/// The error for the first of the three strings that does not fit.
pub open spec fn first_string_error(a: Seq<char>, b: Seq<char>, c: Seq<char>) -> TelemetryError {
    if !encodable(a) {
        TelemetryError::StringTooLong(encode_utf8(a).len() as usize)
    } else if !encodable(b) {
        TelemetryError::StringTooLong(encode_utf8(b).len() as usize)
    } else {
        TelemetryError::StringTooLong(encode_utf8(c).len() as usize)
    }
}

/// Encodes the registration request.
pub fn build_register_packet(
    display_name: &str,
    connection_password: &str,
    update_interval_ms: i32,
    command_password: &str,
) -> (r: Result<Vec<u8>, TelemetryError>)
    ensures
        update_interval_ms <= 0 ==> r == Err::<Vec<u8>, TelemetryError>(
            TelemetryError::NonPositiveInterval(update_interval_ms),
        ),
        update_interval_ms > 0 && !(encodable(display_name@) && encodable(connection_password@)
            && encodable(command_password@)) ==> r == Err::<Vec<u8>, TelemetryError>(
            first_string_error(display_name@, connection_password@, command_password@),
        ),
        update_interval_ms > 0 && encodable(display_name@) && encodable(connection_password@)
            && encodable(command_password@) ==> (r matches Ok(v) && v@ == register_packet(
            display_name@,
            connection_password@,
            update_interval_ms,
            command_password@,
        )),
{
    if update_interval_ms <= 0 {
        return Err(TelemetryError::NonPositiveInterval(update_interval_ms));
    }
    let mut buffer: Vec<u8> = Vec::new();
    buffer.push(REGISTER_COMMAND_APPLICATION);
    buffer.push(PROTOCOL_VERSION);
    write_acc_string(&mut buffer, display_name)?;
    write_acc_string(&mut buffer, connection_password)?;
    push_i32_le(&mut buffer, update_interval_ms);
    write_acc_string(&mut buffer, command_password)?;
    assert(buffer@ =~= register_packet(
        display_name@,
        connection_password@,
        update_interval_ms,
        command_password@,
    ));
    Ok(buffer)
}

/// A one-byte request followed by the connection id.
pub open spec fn request_packet(kind: u8, connection_id: i32) -> Seq<u8> {
    seq![kind] + u32_le_bytes(i32_bits(connection_id as int))
}

/// Requests the entry list for a registered connection.
pub fn build_request_entry_list_packet(connection_id: i32) -> (r: Vec<u8>)
    ensures
        r@ == request_packet(REQUEST_ENTRY_LIST, connection_id),
{
    let mut buffer: Vec<u8> = Vec::new();
    buffer.push(REQUEST_ENTRY_LIST);
    push_i32_le(&mut buffer, connection_id);
    assert(buffer@ =~= request_packet(REQUEST_ENTRY_LIST, connection_id));
    buffer
}

/// Requests the track data for a registered connection.
pub fn build_request_track_data_packet(connection_id: i32) -> (r: Vec<u8>)
    ensures
        r@ == request_packet(REQUEST_TRACK_DATA, connection_id),
{
    let mut buffer: Vec<u8> = Vec::new();
    buffer.push(REQUEST_TRACK_DATA);
    push_i32_le(&mut buffer, connection_id);
    assert(buffer@ =~= request_packet(REQUEST_TRACK_DATA, connection_id));
    buffer
}

/// The requests a message calls for: after a successful registration, the
/// entry list and then the track data for that connection; none otherwise.
pub open spec fn requests_for(m: InboundModel) -> Seq<Seq<u8>> {
    match m {
        InboundModel::RegistrationResult(r) => if r.success {
            seq![
                request_packet(REQUEST_ENTRY_LIST, r.connection_id),
                request_packet(REQUEST_TRACK_DATA, r.connection_id),
            ]
        } else {
            Seq::empty()
        },
        _ => Seq::empty(),
    }
}

/// The datagrams to send in answer to an inbound message, in order.
pub fn requests_after(message: &ACCInboundMessage) -> (r: Vec<Vec<u8>>)
    ensures
        r@.len() == requests_for(message@).len(),
        forall|i: int| 0 <= i < r@.len() ==> #[trigger] r@[i]@ == requests_for(message@)[i],
{
    let mut out: Vec<Vec<u8>> = Vec::new();
    if let ACCInboundMessage::RegistrationResult(result) = message {
        if result.success {
            out.push(build_request_entry_list_packet(result.connection_id));
            out.push(build_request_track_data_packet(result.connection_id));
        }
    }
    out
}

/// The registration update interval for an update period: the period in
/// milliseconds, at least 1 and at most `i32::MAX`.
pub open spec fn interval_of(update_rate_ms: u64) -> i32 {
    if update_rate_ms == 0 {
        1
    } else if update_rate_ms > i32::MAX {
        i32::MAX
    } else {
        update_rate_ms as i32
    }
}

/// Converts an update period to the protocol's interval field.
pub fn duration_to_interval_ms(update_rate_ms: u64) -> (r: i32)
    ensures
        r == interval_of(update_rate_ms),
        r >= 1,
{
    if update_rate_ms == 0 {
        return 1;
    }
    if update_rate_ms > i32::MAX as u64 {
        return i32::MAX;
    }
    update_rate_ms as i32
}

/// Where a car is on the circuit: 2 pit lane, 3 pit entry, 4 pit exit.
impl RealtimeCarUpdate {
    /// The car is in the pit lane, entering or leaving it.
    pub fn in_pits(&self) -> (r: bool)
        ensures
            r == (2 <= self.car_location <= 4),
    {
        2 <= self.car_location && self.car_location <= 4
    }

    /// The pit limiter is on in the pit lane proper.
    pub fn pit_limiter(&self) -> (r: bool)
        ensures
            r == (self.car_location == 2),
    {
        self.car_location == 2
    }
}

// ── Session state ────────────────────────────────────────────────────────────

/// What the adapter remembers between datagrams.
pub struct ACCSessionState {
    pub track_name: Option<String>,
    pub focused_car_index: Option<u16>,
    pub latest_realtime: Option<RealtimeUpdate>,
    pub latest_car_updates: HashMap<u16, RealtimeCarUpdate>,
}

/// The car frame that a realtime update selects: the last update of the
/// focused car, when one is known.
pub open spec fn focused_car(cars: Map<u16, RealtimeCarUpdate>, focused: Option<u16>) -> Option<
    RealtimeCarUpdate,
> {
    match focused {
        Some(i) => if cars.contains_key(i) {
            Some(cars[i])
        } else {
            None
        },
        None => None,
    }
}

impl ACCSessionState {
    /// A state that has seen nothing yet.
    pub fn new() -> (r: Self)
        ensures
            r.track_name is None,
            r.focused_car_index is None,
            r.latest_realtime is None,
            r.latest_car_updates@ == Map::<u16, RealtimeCarUpdate>::empty(),
    {
        ACCSessionState {
            track_name: None,
            focused_car_index: None,
            latest_realtime: None,
            latest_car_updates: HashMap::new(),
        }
    }

    /// Records a message and returns the car update that becomes a telemetry
    /// frame, if any: the focused car's latest update after a realtime update,
    /// or a car update itself unless another car is focused.
    pub fn update_and_select_car(&mut self, message: &ACCInboundMessage) -> (r: Option<
        RealtimeCarUpdate,
    >)
        ensures
            match message@ {
                InboundModel::RealtimeUpdate(u) => {
                    &&& final(self).focused_car_index == u.focused_car_index
                    &&& final(self).latest_realtime == Some(u)
                    &&& final(self).latest_car_updates@ == old(self).latest_car_updates@
                    &&& final(self).track_name == old(self).track_name
                    &&& r == focused_car(old(self).latest_car_updates@, u.focused_car_index)
                },
                InboundModel::RealtimeCarUpdate(u) => {
                    &&& final(self).latest_car_updates@ == old(self).latest_car_updates@.insert(
                        u.car_index,
                        u,
                    )
                    &&& final(self).focused_car_index == old(self).focused_car_index
                    &&& final(self).latest_realtime == old(self).latest_realtime
                    &&& final(self).track_name == old(self).track_name
                    &&& r == (if old(self).focused_car_index matches Some(f) && f != u.car_index {
                        None
                    } else {
                        Some(u)
                    })
                },
                InboundModel::TrackData(name) => {
                    &&& (final(self).track_name matches Some(t) && t@ == name)
                    &&& final(self).focused_car_index == old(self).focused_car_index
                    &&& final(self).latest_realtime == old(self).latest_realtime
                    &&& final(self).latest_car_updates@ == old(self).latest_car_updates@
                    &&& r is None
                },
                _ => {
                    &&& final(self).track_name == old(self).track_name
                    &&& final(self).focused_car_index == old(self).focused_car_index
                    &&& final(self).latest_realtime == old(self).latest_realtime
                    &&& final(self).latest_car_updates@ == old(self).latest_car_updates@
                    &&& r is None
                },
            },
    {
        match message {
            ACCInboundMessage::RealtimeUpdate(update) => {
                self.focused_car_index = update.focused_car_index;
                self.latest_realtime = Some(*update);
                match self.focused_car_index {
                    Some(index) => match self.latest_car_updates.get(&index) {
                        Some(car) => Some(*car),
                        None => None,
                    },
                    None => None,
                }
            },
            ACCInboundMessage::RealtimeCarUpdate(update) => {
                self.latest_car_updates.insert(update.car_index, *update);
                if let Some(focused) = self.focused_car_index {
                    if focused != update.car_index {
                        return None;
                    }
                }
                Some(*update)
            },
            ACCInboundMessage::TrackData(track_data) => {
                self.track_name = Some(track_data.track_name.clone());
                None
            },
            _ => None,
        }
    }
}

/// The car update that a single datagram yields on its own: a realtime car
/// update decodes to itself; any other valid message yields no frame.
pub fn normalize_single(raw: &[u8]) -> (r: Result<RealtimeCarUpdate, TelemetryError>)
    ensures
        match sp_inbound(raw@) {
            Ok(InboundModel::RealtimeCarUpdate(u)) => r == Ok::<
                RealtimeCarUpdate,
                TelemetryError,
            >(u),
            Ok(_) => r == Err::<RealtimeCarUpdate, TelemetryError>(
                TelemetryError::IncompletePacket(raw@[0]),
            ),
            Err(e) => r == Err::<RealtimeCarUpdate, TelemetryError>(e),
        },
{
    let message = parse_inbound_message(raw)?;
    let mut state = ACCSessionState::new();
    match state.update_and_select_car(&message) {
        Some(car) => Ok(car),
        None => Err(TelemetryError::IncompletePacket(raw[0])),
    }
}

} // verus!
