//! F1 25 native UDP telemetry (packet format 2025): the 29-byte packet
//! header, the Session (1), Car Telemetry (6) and Car Status (7) packets, the
//! state that pairs telemetry with status, and test-packet builders.
use crate::bytes::{
    as_i8, finite_or_zero, le_u16, le_u32, le_u64, push_u16_le, push_u32_le, read_float_bits_finite,
    read_u16_le, read_u32_le, read_u64_le, u16_le_bytes, u32_le_bytes, u8_to_i8, i8_to_u8,
    zeros, push_zeros, lemma_le_u16_of, lemma_le_u32_of,
};
use crate::error::TelemetryError;
use crate::f1_native::{build_status_packet, status_entry, status_packet_bytes};
use crate::settings::{heartbeat_fresh, is_recent_packet, positive_u16_setting, positive_u64_setting, setting_in_range, text_of};
use vstd::prelude::*;

verus! {

/// Standard Codemasters/EA F1 UDP port.
pub const DEFAULT_PORT: u16 = 20777;
pub const DEFAULT_HEARTBEAT_TIMEOUT_MS: u64 = 2000;
pub const DEFAULT_UPDATE_RATE_MS: u64 = 16;
pub const MAX_PACKET_BYTES: usize = 2048;
pub const NUM_CARS: usize = 22;
pub const PACKET_FORMAT_2025: u16 = 2025;
pub const HEADER_SIZE: usize = 29;
pub const PACKET_ID_SESSION: u8 = 1;
pub const PACKET_ID_CAR_TELEMETRY: u8 = 6;
pub const PACKET_ID_CAR_STATUS: u8 = 7;

/// Size of one CarTelemetryData entry.
pub const CAR_TELEMETRY_ENTRY_SIZE: usize = 60;
/// Size of one CarStatusData entry.
pub const CAR_STATUS_ENTRY_SIZE: usize = 55;
/// Minimum size for a full Car Telemetry packet (all 22 cars + trailer).
pub const MIN_CAR_TELEMETRY_PACKET_SIZE: usize = 1352;
/// Minimum size for a full Car Status packet (all 22 cars).
pub const MIN_CAR_STATUS_PACKET_SIZE: usize = 1239;
/// Minimum size of the Session fields used here.
pub const MIN_SESSION_SIZE: usize = 37;

// ── Names ────────────────────────────────────────────────────────────────────

/// Display name of a 0-based track index.
pub open spec fn track_name_of_index(idx: int) -> &'static str {
    if idx == 0 {
        "Melbourne"
    } else if idx == 1 {
        "Paul Ricard"
    } else if idx == 2 {
        "Shanghai"
    } else if idx == 3 {
        "Sakhir (Bahrain)"
    } else if idx == 4 {
        "Catalunya"
    } else if idx == 5 {
        "Monaco"
    } else if idx == 6 {
        "Montreal"
    } else if idx == 7 {
        "Silverstone"
    } else if idx == 8 {
        "Hockenheim"
    } else if idx == 9 {
        "Hungaroring"
    } else if idx == 10 {
        "Spa"
    } else if idx == 11 {
        "Monza"
    } else if idx == 12 {
        "Singapore"
    } else if idx == 13 {
        "Suzuka"
    } else if idx == 14 {
        "Abu Dhabi"
    } else if idx == 15 {
        "Texas"
    } else if idx == 16 {
        "Brazil"
    } else if idx == 17 {
        "Austria"
    } else if idx == 18 {
        "Sochi"
    } else if idx == 19 {
        "Mexico"
    } else if idx == 20 {
        "Baku (Azerbaijan)"
    } else if idx == 21 {
        "Sakhir Short"
    } else if idx == 22 {
        "Silverstone Short"
    } else if idx == 23 {
        "Texas Short"
    } else if idx == 24 {
        "Suzuka Short"
    } else if idx == 25 {
        "Hanoi"
    } else if idx == 26 {
        "Zandvoort"
    } else if idx == 27 {
        "Imola"
    } else if idx == 28 {
        "Portimao"
    } else if idx == 29 {
        "Jeddah"
    } else if idx == 30 {
        "Miami"
    } else if idx == 31 {
        "Las Vegas"
    } else if idx == 32 {
        "Losail"
    } else {
        "Unknown"
    }
}

fn track_name_str(idx: usize) -> (r: &'static str)
    ensures
        r == track_name_of_index(idx as int),
{
    if idx == 0 {
        "Melbourne"
    } else if idx == 1 {
        "Paul Ricard"
    } else if idx == 2 {
        "Shanghai"
    } else if idx == 3 {
        "Sakhir (Bahrain)"
    } else if idx == 4 {
        "Catalunya"
    } else if idx == 5 {
        "Monaco"
    } else if idx == 6 {
        "Montreal"
    } else if idx == 7 {
        "Silverstone"
    } else if idx == 8 {
        "Hockenheim"
    } else if idx == 9 {
        "Hungaroring"
    } else if idx == 10 {
        "Spa"
    } else if idx == 11 {
        "Monza"
    } else if idx == 12 {
        "Singapore"
    } else if idx == 13 {
        "Suzuka"
    } else if idx == 14 {
        "Abu Dhabi"
    } else if idx == 15 {
        "Texas"
    } else if idx == 16 {
        "Brazil"
    } else if idx == 17 {
        "Austria"
    } else if idx == 18 {
        "Sochi"
    } else if idx == 19 {
        "Mexico"
    } else if idx == 20 {
        "Baku (Azerbaijan)"
    } else if idx == 21 {
        "Sakhir Short"
    } else if idx == 22 {
        "Silverstone Short"
    } else if idx == 23 {
        "Texas Short"
    } else if idx == 24 {
        "Suzuka Short"
    } else if idx == 25 {
        "Hanoi"
    } else if idx == 26 {
        "Zandvoort"
    } else if idx == 27 {
        "Imola"
    } else if idx == 28 {
        "Portimao"
    } else if idx == 29 {
        "Jeddah"
    } else if idx == 30 {
        "Miami"
    } else if idx == 31 {
        "Las Vegas"
    } else if idx == 32 {
        "Losail"
    } else {
        "Unknown"
    }
}

/// Human-readable name of a tyre compound code.
pub open spec fn tyre_name_of(compound: u8) -> &'static str {
    if compound == 7 {
        "Intermediate"
    } else if compound == 8 {
        "Wet"
    } else if compound == 9 {
        "Dry (dev)"
    } else if compound == 10 {
        "Wet (dev)"
    } else if compound == 11 {
        "Super Soft"
    } else if compound == 12 {
        "Soft"
    } else if compound == 13 {
        "Medium"
    } else if compound == 14 {
        "Hard"
    } else if compound == 15 {
        "Wet"
    } else if compound == 16 {
        "C5"
    } else if compound == 17 {
        "C4"
    } else if compound == 18 {
        "C3"
    } else if compound == 19 {
        "C2"
    } else if compound == 20 {
        "C1"
    } else if compound == 21 {
        "C0"
    } else {
        "Unknown"
    }
}

/// Returns the human-readable tyre compound name for a compound code.
pub fn tyre_compound_name(compound: u8) -> (r: &'static str)
    ensures
        r == tyre_name_of(compound),
{
    if compound == 7 {
        "Intermediate"
    } else if compound == 8 {
        "Wet"
    } else if compound == 9 {
        "Dry (dev)"
    } else if compound == 10 {
        "Wet (dev)"
    } else if compound == 11 {
        "Super Soft"
    } else if compound == 12 {
        "Soft"
    } else if compound == 13 {
        "Medium"
    } else if compound == 14 {
        "Hard"
    } else if compound == 15 {
        "Wet"
    } else if compound == 16 {
        "C5"
    } else if compound == 17 {
        "C4"
    } else if compound == 18 {
        "C3"
    } else if compound == 19 {
        "C2"
    } else if compound == 20 {
        "C1"
    } else if compound == 21 {
        "C0"
    } else {
        "Unknown"
    }
}

/// Track index for a signed track id: negative ids count as 0.
pub open spec fn track_index(track_id: i8) -> int {
    if track_id < 0 {
        0
    } else {
        track_id as int
    }
}

/// Maps `m_trackId` (0-based) to a display name. Unknown ids give "Unknown".
pub fn track_name_from_id(track_id: i8) -> (r: String)
    ensures
        r@ == track_name_of_index(track_index(track_id))@,
{
    let idx: usize = if track_id < 0 {
        0
    } else {
        track_id as usize
    };
    track_name_str(idx).to_owned()
}

// ── Byte reader ──────────────────────────────────────────────────────────────

/// A read of `n` bytes at `pos`: the position after it, or the error.
pub open spec fn br_step(d: Seq<u8>, pos: int, n: int) -> Result<int, TelemetryError> {
    if pos + n > d.len() {
        Err(TelemetryError::OutOfBounds { offset: pos as usize, len: n as usize })
    } else {
        Ok(pos + n)
    }
}

/// Where `count` consecutive reads of `width` bytes from `pos` stop: after
/// the last that fits.
pub open spec fn first_failing_read(len: int, pos: int, width: int, count: int) -> int {
    if pos > len {
        pos
    } else if (len - pos) / width < count {
        pos + width * ((len - pos) / width)
    } else {
        pos + width * count
    }
}

/// Cursor-style byte reader for little-endian binary data.
pub struct ByteReader<'a> {
    pub data: &'a [u8],
    pub pos: usize,
}

impl<'a> ByteReader<'a> {
    pub fn new(data: &'a [u8]) -> (r: Self)
        ensures
            r.data@ == data@,
            r.pos == 0,
    {
        Self { data, pos: 0 }
    }

    pub fn at(data: &'a [u8], offset: usize) -> (r: Self)
        ensures
            r.data@ == data@,
            r.pos == offset,
    {
        Self { data, pos: offset }
    }

    pub fn u8(&mut self) -> (r: Result<u8, TelemetryError>)
        ensures
            final(self).data@ == old(self).data@,
            match br_step(old(self).data@, old(self).pos as int, 1) {
                Ok(o) => r == Ok::<u8, TelemetryError>(old(self).data@[old(self).pos as int])
                    && final(self).pos == o,
                Err(e) => r == Err::<u8, TelemetryError>(e) && final(self).pos == old(self).pos,
            },
    {
        if self.pos >= self.data.len() {
            return Err(TelemetryError::OutOfBounds { offset: self.pos, len: 1 });
        }
        let v = self.data[self.pos];
        self.pos = self.pos + 1;
        Ok(v)
    }

    pub fn i8(&mut self) -> (r: Result<i8, TelemetryError>)
        ensures
            final(self).data@ == old(self).data@,
            match br_step(old(self).data@, old(self).pos as int, 1) {
                Ok(o) => r == Ok::<i8, TelemetryError>(
                    as_i8(old(self).data@[old(self).pos as int] as int) as i8,
                ) && final(self).pos == o,
                Err(e) => r == Err::<i8, TelemetryError>(e) && final(self).pos == old(self).pos,
            },
    {
        let v = self.u8()?;
        Ok(u8_to_i8(v))
    }

    fn has(&self, n: usize) -> (r: bool)
        ensures
            r == (self.pos + n <= self.data@.len()),
            self.data@.len() <= usize::MAX,
    {
        self.pos <= self.data.len() && self.data.len() - self.pos >= n
    }

    pub fn u16_le(&mut self) -> (r: Result<u16, TelemetryError>)
        ensures
            final(self).data@ == old(self).data@,
            match br_step(old(self).data@, old(self).pos as int, 2) {
                Ok(o) => r == Ok::<u16, TelemetryError>(
                    le_u16(old(self).data@, old(self).pos as int) as u16,
                ) && final(self).pos == o,
                Err(e) => r == Err::<u16, TelemetryError>(e) && final(self).pos == old(self).pos,
            },
    {
        if !self.has(2) {
            return Err(TelemetryError::OutOfBounds { offset: self.pos, len: 2 });
        }
        let v = read_u16_le(self.data, self.pos);
        self.pos = self.pos + 2;
        Ok(v)
    }

    pub fn u32_le(&mut self) -> (r: Result<u32, TelemetryError>)
        ensures
            final(self).data@ == old(self).data@,
            match br_step(old(self).data@, old(self).pos as int, 4) {
                Ok(o) => r == Ok::<u32, TelemetryError>(
                    le_u32(old(self).data@, old(self).pos as int) as u32,
                ) && final(self).pos == o,
                Err(e) => r == Err::<u32, TelemetryError>(e) && final(self).pos == old(self).pos,
            },
    {
        let b = self.read_n4()?;
        Ok(read_u32_le(b.as_slice(), 0))
    }

    pub fn u64_le(&mut self) -> (r: Result<u64, TelemetryError>)
        ensures
            final(self).data@ == old(self).data@,
            match br_step(old(self).data@, old(self).pos as int, 8) {
                Ok(o) => r == Ok::<u64, TelemetryError>(
                    le_u64(old(self).data@, old(self).pos as int) as u64,
                ) && final(self).pos == o,
                Err(e) => r == Err::<u64, TelemetryError>(e) && final(self).pos == old(self).pos,
            },
    {
        if !self.has(8) {
            return Err(TelemetryError::OutOfBounds { offset: self.pos, len: 8 });
        }
        let v = read_u64_le(self.data, self.pos);
        self.pos = self.pos + 8;
        Ok(v)
    }

    /// Reads a single-precision field; NaN and infinities read as `+0.0`.
    pub fn float_bits_le(&mut self) -> (r: Result<u32, TelemetryError>)
        ensures
            final(self).data@ == old(self).data@,
            match br_step(old(self).data@, old(self).pos as int, 4) {
                Ok(o) => r == Ok::<u32, TelemetryError>(
                    finite_or_zero(le_u32(old(self).data@, old(self).pos as int) as u32),
                ) && final(self).pos == o,
                Err(e) => r == Err::<u32, TelemetryError>(e) && final(self).pos == old(self).pos,
            },
    {
        if !self.has(4) {
            return Err(TelemetryError::OutOfBounds { offset: self.pos, len: 4 });
        }
        let v = read_float_bits_finite(self.data, self.pos);
        self.pos = self.pos + 4;
        Ok(v)
    }

    fn read_n4(&mut self) -> (r: Result<[u8; 4], TelemetryError>)
        ensures
            final(self).data@ == old(self).data@,
            match br_step(old(self).data@, old(self).pos as int, 4) {
                Ok(o) => (r matches Ok(b) && b@ == old(self).data@.subrange(
                    old(self).pos as int,
                    o,
                )) && final(self).pos == o,
                Err(e) => r == Err::<[u8; 4], TelemetryError>(e) && final(self).pos == old(
                    self,
                ).pos,
            },
    {
        if !self.has(4) {
            return Err(TelemetryError::OutOfBounds { offset: self.pos, len: 4 });
        }
        let p = self.pos;
        let b: [u8; 4] = [self.data[p], self.data[p + 1], self.data[p + 2], self.data[p + 3]];
        self.pos = p + 4;
        assert(b@ =~= self.data@.subrange(p as int, p + 4));
        Ok(b)
    }

    pub fn u8_array<const N: usize>(&mut self) -> (r: Result<[u8; N], TelemetryError>)
        ensures
            final(self).data@ == old(self).data@,
            match br_step(old(self).data@, old(self).pos as int, N as int) {
                Ok(o) => (r matches Ok(a) && a@ == old(self).data@.subrange(
                    old(self).pos as int,
                    o,
                )) && final(self).pos == o,
                Err(e) => r == Err::<[u8; N], TelemetryError>(e) && final(self).pos == old(
                    self,
                ).pos,
            },
    {
        if !self.has(N) {
            return Err(TelemetryError::OutOfBounds { offset: self.pos, len: N });
        }
        let start = self.pos;
        assert(start + N <= usize::MAX);
        let mut arr: [u8; N] = vstd::array::array_fill_for_copy_types(0u8);
        let mut i: usize = 0;
        while i < N
            invariant
                i <= N,
                start + N <= self.data@.len(),
                start + N <= usize::MAX,
                arr@.len() == N,
                forall|j: int| 0 <= j < i ==> arr@[j] == self.data@[start + j],
            decreases N - i,
        {
            arr[i] = self.data[start + i];
            i = i + 1;
        }
        self.pos = start + N;
        assert(arr@ =~= self.data@.subrange(start as int, start + N));
        Ok(arr)
    }

    pub fn u16_le_array<const N: usize>(&mut self) -> (r: Result<[u16; N], TelemetryError>)
        ensures
            final(self).data@ == old(self).data@,
            (N == 0 || old(self).pos + 2 * N <= old(self).data@.len()) ==> (r matches Ok(a) && (forall|j: int|
                0 <= j < N ==> #[trigger] a@[j] as int == le_u16(
                    old(self).data@,
                    old(self).pos + 2 * j,
                )) && final(self).pos == old(self).pos + 2 * N),
            N > 0 && old(self).pos + 2 * N > old(self).data@.len() ==> r == Err::<[u16; N], TelemetryError>(
                TelemetryError::OutOfBounds {
                    offset: first_failing_read(
                        old(self).data@.len() as int,
                        old(self).pos as int,
                        2,
                        N as int,
                    ) as usize,
                    len: 2,
                },
            ) && final(self).pos == first_failing_read(
                old(self).data@.len() as int,
                old(self).pos as int,
                2,
                N as int,
            ),
    {
        let ghost start = self.pos as int;
        let ghost len = self.data@.len() as int;
        let mut arr: [u16; N] = vstd::array::array_fill_for_copy_types(0u16);
        let mut i: usize = 0;
        while i < N
            invariant
                i <= N,
                self.data@ == old(self).data@,
                start == old(self).pos as int,
                len == self.data@.len(),
                self.pos as int == start + 2 * i,
                i == 0 || start + 2 * i <= len,
                arr@.len() == N,
                forall|j: int| 0 <= j < i ==> #[trigger] arr@[j] as int == le_u16(self.data@, start + 2 * j),
            decreases N - i,
        {
            match self.u16_le() {
                Ok(v) => {
                    arr[i] = v;
                },
                Err(e) => {
                    proof {
                        if start <= len {
                            assert((len - start) / 2 == i as int);
                        }
                    }
                    return Err(e);
                },
            }
            i = i + 1;
        }
        Ok(arr)
    }

    /// Reads `N` single-precision fields; NaN and infinities read as `+0.0`.
    pub fn float_bits_le_array<const N: usize>(&mut self) -> (r: Result<[u32; N], TelemetryError>)
        ensures
            final(self).data@ == old(self).data@,
            (N == 0 || old(self).pos + 4 * N <= old(self).data@.len()) ==> (r matches Ok(a) && (forall|j: int|
                0 <= j < N ==> #[trigger] a@[j] == finite_or_zero(
                    le_u32(old(self).data@, old(self).pos + 4 * j) as u32,
                )) && final(self).pos == old(self).pos + 4 * N),
            N > 0 && old(self).pos + 4 * N > old(self).data@.len() ==> r == Err::<[u32; N], TelemetryError>(
                TelemetryError::OutOfBounds {
                    offset: first_failing_read(
                        old(self).data@.len() as int,
                        old(self).pos as int,
                        4,
                        N as int,
                    ) as usize,
                    len: 4,
                },
            ) && final(self).pos == first_failing_read(
                old(self).data@.len() as int,
                old(self).pos as int,
                4,
                N as int,
            ),
    {
        let ghost start = self.pos as int;
        let ghost len = self.data@.len() as int;
        let mut arr: [u32; N] = vstd::array::array_fill_for_copy_types(0u32);
        let mut i: usize = 0;
        while i < N
            invariant
                i <= N,
                self.data@ == old(self).data@,
                start == old(self).pos as int,
                len == self.data@.len(),
                self.pos as int == start + 4 * i,
                i == 0 || start + 4 * i <= len,
                arr@.len() == N,
                forall|j: int|
                    0 <= j < i ==> #[trigger] arr@[j] == finite_or_zero(
                        le_u32(self.data@, start + 4 * j) as u32,
                    ),
            decreases N - i,
        {
            match self.float_bits_le() {
                Ok(v) => {
                    arr[i] = v;
                },
                Err(e) => {
                    proof {
                        if start <= len {
                            assert((len - start) / 4 == i as int);
                        }
                    }
                    return Err(e);
                },
            }
            i = i + 1;
        }
        Ok(arr)
    }

    pub fn skip(&mut self, n: usize) -> (r: Result<(), TelemetryError>)
        ensures
            final(self).data@ == old(self).data@,
            match br_step(old(self).data@, old(self).pos as int, n as int) {
                Ok(o) => r is Ok && final(self).pos == o,
                Err(e) => r == Err::<(), TelemetryError>(e) && final(self).pos == old(self).pos,
            },
    {
        if !self.has(n) {
            return Err(TelemetryError::OutOfBounds { offset: self.pos, len: n });
        }
        self.pos = self.pos + n;
        Ok(())
    }
}

// ── Packets ──────────────────────────────────────────────────────────────────

/// Parsed fields from the 29-byte packet header.
#[derive(Debug, Clone, Copy, PartialEq, Eq, Structural)]
pub struct PacketHeader {
    pub packet_format: u16,
    pub packet_id: u8,
    pub player_car_index: u8,
}

/// Telemetry for a single car (packet 6). Single-precision values are raw
/// bit patterns with non-finite values replaced by `+0.0`; temperature and
/// pressure arrays are ordered RL, RR, FL, FR.
#[derive(Debug, Clone, Copy)]
pub struct CarTelemetryData {
    /// Speed in km/h.
    pub speed_kmh: u16,
    pub throttle_bits: u32,
    pub steer_bits: u32,
    pub brake_bits: u32,
    /// −1 = reverse, 0 = neutral, 1–8 = forward.
    pub gear: i8,
    pub engine_rpm: u16,
    pub drs: u8,
    pub brakes_temperature: [u16; 4],
    pub tyres_surface_temperature: [u8; 4],
    pub tyres_inner_temperature: [u8; 4],
    pub engine_temperature: u16,
    pub tyres_pressure_bits: [u32; 4],
}

/// Status for a single car (packet 7). Single-precision values are raw bit
/// patterns with non-finite values replaced by `+0.0`.
#[derive(Debug, Clone, Copy, PartialEq, Eq, Structural)]
pub struct CarStatusData {
    pub traction_control: u8,
    pub anti_lock_brakes: u8,
    pub pit_limiter_status: u8,
    pub fuel_in_tank_bits: u32,
    pub fuel_remaining_laps_bits: u32,
    pub max_rpm: u16,
    pub drs_allowed: u8,
    pub actual_tyre_compound: u8,
    pub tyre_age_laps: u8,
    pub engine_power_ice_bits: u32,
    pub engine_power_mguk_bits: u32,
    pub ers_store_energy_bits: u32,
    pub ers_deploy_mode: u8,
    pub ers_harvested_mguk_bits: u32,
    pub ers_harvested_mguh_bits: u32,
    pub ers_deployed_bits: u32,
}

/// Session-level data (packet 1, limited fields only).
#[derive(Debug, Clone, Copy, PartialEq, Eq, Structural)]
pub struct SessionData {
    pub track_id: i8,
    pub session_type: u8,
    pub track_temperature: i8,
    pub air_temperature: i8,
}

impl SessionData {
    /// All-zero session data.
    pub fn new() -> (r: Self)
        ensures
            r == (SessionData { track_id: 0, session_type: 0, track_temperature: 0, air_temperature: 0 }),
    {
        SessionData { track_id: 0, session_type: 0, track_temperature: 0, air_temperature: 0 }
    }
}

impl CarStatusData {
    /// Safe all-zero status used when only a Car Telemetry packet is available.
    pub open spec fn zeroed() -> CarStatusData {
        CarStatusData {
            traction_control: 0,
            anti_lock_brakes: 0,
            pit_limiter_status: 0,
            fuel_in_tank_bits: 0,
            fuel_remaining_laps_bits: 0,
            max_rpm: 0,
            drs_allowed: 0,
            actual_tyre_compound: 0,
            tyre_age_laps: 0,
            engine_power_ice_bits: 0,
            engine_power_mguk_bits: 0,
            ers_store_energy_bits: 0,
            ers_deploy_mode: 0,
            ers_harvested_mguk_bits: 0,
            ers_harvested_mguh_bits: 0,
            ers_deployed_bits: 0,
        }
    }

    pub fn default_for_normalize() -> (r: Self)
        ensures
            r == CarStatusData::zeroed(),
    {
        CarStatusData {
            traction_control: 0,
            anti_lock_brakes: 0,
            pit_limiter_status: 0,
            fuel_in_tank_bits: 0,
            fuel_remaining_laps_bits: 0,
            max_rpm: 0,
            drs_allowed: 0,
            actual_tyre_compound: 0,
            tyre_age_laps: 0,
            engine_power_ice_bits: 0,
            engine_power_mguk_bits: 0,
            ers_store_energy_bits: 0,
            ers_deploy_mode: 0,
            ers_harvested_mguk_bits: 0,
            ers_harvested_mguh_bits: 0,
            ers_deployed_bits: 0,
        }
    }
}

/// The header fields of a buffer of at least 29 bytes.
pub open spec fn header_of(d: Seq<u8>) -> PacketHeader {
    PacketHeader { packet_format: le_u16(d, 0) as u16, packet_id: d[6], player_car_index: d[27] }
}

/// Parse the 29-byte packet header.
pub fn parse_header(raw: &[u8]) -> (r: Result<PacketHeader, TelemetryError>)
    ensures
        raw@.len() < HEADER_SIZE ==> r == Err::<PacketHeader, TelemetryError>(
            TelemetryError::TooShort { needed: HEADER_SIZE, actual: raw@.len() as usize },
        ),
        raw@.len() >= HEADER_SIZE ==> r == Ok::<PacketHeader, TelemetryError>(header_of(raw@)),
{
    if raw.len() < HEADER_SIZE {
        return Err(TelemetryError::TooShort { needed: HEADER_SIZE, actual: raw.len() });
    }
    let mut r = ByteReader::new(raw);
    let packet_format = r.u16_le()?;
    r.skip(4)?;
    let packet_id = r.u8()?;
    r.skip(8)?;
    r.skip(4)?;
    r.skip(4)?;
    r.skip(4)?;
    let player_car_index = r.u8()?;
    Ok(PacketHeader { packet_format, packet_id, player_car_index })
}

/// The telemetry entry that starts at `base`.
pub open spec fn telemetry_at(t: CarTelemetryData, d: Seq<u8>, base: int) -> bool {
    &&& t.speed_kmh as int == le_u16(d, base)
    &&& t.throttle_bits == finite_or_zero(le_u32(d, base + 2) as u32)
    &&& t.steer_bits == finite_or_zero(le_u32(d, base + 6) as u32)
    &&& t.brake_bits == finite_or_zero(le_u32(d, base + 10) as u32)
    &&& t.gear as int == as_i8(d[base + 15] as int)
    &&& t.engine_rpm as int == le_u16(d, base + 16)
    &&& t.drs == d[base + 18]
    &&& (forall|j: int| 0 <= j < 4 ==> #[trigger] t.brakes_temperature@[j] as int == le_u16(d, base + 22 + 2 * j))
    &&& t.tyres_surface_temperature@ == d.subrange(base + 30, base + 34)
    &&& t.tyres_inner_temperature@ == d.subrange(base + 34, base + 38)
    &&& t.engine_temperature as int == le_u16(d, base + 38)
    &&& (forall|j: int| 0 <= j < 4 ==> #[trigger] t.tyres_pressure_bits@[j] == finite_or_zero(
        le_u32(d, base + 40 + 4 * j) as u32,
    ))
}

/// Parse the telemetry entry for `player_index` from a Car Telemetry packet.
pub fn parse_car_telemetry(raw: &[u8], player_index: usize) -> (r: Result<CarTelemetryData, TelemetryError>)
    ensures
        raw@.len() < MIN_CAR_TELEMETRY_PACKET_SIZE ==> r == Err::<CarTelemetryData, TelemetryError>(
            TelemetryError::TooShort { needed: MIN_CAR_TELEMETRY_PACKET_SIZE, actual: raw@.len() as usize },
        ),
        raw@.len() >= MIN_CAR_TELEMETRY_PACKET_SIZE && player_index >= NUM_CARS ==> r == Err::<
            CarTelemetryData,
            TelemetryError,
        >(TelemetryError::PlayerIndexOutOfRange(player_index)),
        raw@.len() >= MIN_CAR_TELEMETRY_PACKET_SIZE && player_index < NUM_CARS ==> (r matches Ok(t)
            && telemetry_at(t, raw@, HEADER_SIZE + player_index * CAR_TELEMETRY_ENTRY_SIZE)),
{
    if raw.len() < MIN_CAR_TELEMETRY_PACKET_SIZE {
        return Err(TelemetryError::TooShort { needed: MIN_CAR_TELEMETRY_PACKET_SIZE, actual: raw.len() });
    }
    if player_index >= NUM_CARS {
        return Err(TelemetryError::PlayerIndexOutOfRange(player_index));
    }
    assert(player_index * 60 <= 21 * 60) by (nonlinear_arith)
        requires
            player_index < 22,
    ;
    let car_offset = HEADER_SIZE + player_index * CAR_TELEMETRY_ENTRY_SIZE;
    let mut r = ByteReader::at(raw, car_offset);
    let speed_kmh = r.u16_le()?;
    let throttle_bits = r.float_bits_le()?;
    let steer_bits = r.float_bits_le()?;
    let brake_bits = r.float_bits_le()?;
    r.skip(1)?;
    let gear = r.i8()?;
    let engine_rpm = r.u16_le()?;
    let drs = r.u8()?;
    r.skip(1)?;
    r.skip(2)?;
    let brakes_temperature = r.u16_le_array::<4>()?;
    let tyres_surface_temperature = r.u8_array::<4>()?;
    let tyres_inner_temperature = r.u8_array::<4>()?;
    let engine_temperature = r.u16_le()?;
    let tyres_pressure_bits = r.float_bits_le_array::<4>()?;
    Ok(
        CarTelemetryData {
            speed_kmh,
            throttle_bits,
            steer_bits,
            brake_bits,
            gear,
            engine_rpm,
            drs,
            brakes_temperature,
            tyres_surface_temperature,
            tyres_inner_temperature,
            engine_temperature,
            tyres_pressure_bits,
        },
    )
}

pub open spec fn float_at(d: Seq<u8>, off: int) -> u32 {
    finite_or_zero(le_u32(d, off) as u32)
}

/// The status entry (F1 24/25 layout, 55 bytes) that starts at `base`.
pub open spec fn status_at(d: Seq<u8>, base: int) -> CarStatusData {
    CarStatusData {
        traction_control: d[base],
        anti_lock_brakes: d[base + 1],
        pit_limiter_status: d[base + 4],
        fuel_in_tank_bits: float_at(d, base + 5),
        fuel_remaining_laps_bits: float_at(d, base + 13),
        max_rpm: le_u16(d, base + 17) as u16,
        drs_allowed: d[base + 22],
        actual_tyre_compound: d[base + 25],
        tyre_age_laps: d[base + 27],
        engine_power_ice_bits: float_at(d, base + 29),
        engine_power_mguk_bits: float_at(d, base + 33),
        ers_store_energy_bits: float_at(d, base + 37),
        ers_deploy_mode: d[base + 41],
        ers_harvested_mguk_bits: float_at(d, base + 42),
        ers_harvested_mguh_bits: float_at(d, base + 46),
        ers_deployed_bits: float_at(d, base + 50),
    }
}

/// Reads a status entry in the 55-byte layout at `car_offset`.
pub(crate) fn read_status_55(raw: &[u8], car_offset: usize) -> (r: CarStatusData)
    requires
        car_offset + 55 <= raw@.len(),
    ensures
        r == status_at(raw@, car_offset as int),
{
    CarStatusData {
        traction_control: raw[car_offset],
        anti_lock_brakes: raw[car_offset + 1],
        pit_limiter_status: raw[car_offset + 4],
        fuel_in_tank_bits: read_float_bits_finite(raw, car_offset + 5),
        fuel_remaining_laps_bits: read_float_bits_finite(raw, car_offset + 13),
        max_rpm: read_u16_le(raw, car_offset + 17),
        drs_allowed: raw[car_offset + 22],
        actual_tyre_compound: raw[car_offset + 25],
        tyre_age_laps: raw[car_offset + 27],
        engine_power_ice_bits: read_float_bits_finite(raw, car_offset + 29),
        engine_power_mguk_bits: read_float_bits_finite(raw, car_offset + 33),
        ers_store_energy_bits: read_float_bits_finite(raw, car_offset + 37),
        ers_deploy_mode: raw[car_offset + 41],
        ers_harvested_mguk_bits: read_float_bits_finite(raw, car_offset + 42),
        ers_harvested_mguh_bits: read_float_bits_finite(raw, car_offset + 46),
        ers_deployed_bits: read_float_bits_finite(raw, car_offset + 50),
    }
}

/// Parse the status entry for `player_index` from a Car Status packet.
pub fn parse_car_status(raw: &[u8], player_index: usize) -> (r: Result<CarStatusData, TelemetryError>)
    ensures
        raw@.len() < MIN_CAR_STATUS_PACKET_SIZE ==> r == Err::<CarStatusData, TelemetryError>(
            TelemetryError::TooShort { needed: MIN_CAR_STATUS_PACKET_SIZE, actual: raw@.len() as usize },
        ),
        raw@.len() >= MIN_CAR_STATUS_PACKET_SIZE && player_index >= NUM_CARS ==> r == Err::<
            CarStatusData,
            TelemetryError,
        >(TelemetryError::PlayerIndexOutOfRange(player_index)),
        raw@.len() >= MIN_CAR_STATUS_PACKET_SIZE && player_index < NUM_CARS ==> r == Ok::<
            CarStatusData,
            TelemetryError,
        >(status_at(raw@, HEADER_SIZE + player_index * CAR_STATUS_ENTRY_SIZE)),
{
    if raw.len() < MIN_CAR_STATUS_PACKET_SIZE {
        return Err(TelemetryError::TooShort { needed: MIN_CAR_STATUS_PACKET_SIZE, actual: raw.len() });
    }
    if player_index >= NUM_CARS {
        return Err(TelemetryError::PlayerIndexOutOfRange(player_index));
    }
    assert(player_index * 55 <= 21 * 55) by (nonlinear_arith)
        requires
            player_index < 22,
    ;
    let car_offset = HEADER_SIZE + player_index * CAR_STATUS_ENTRY_SIZE;
    Ok(read_status_55(raw, car_offset))
}

/// The session fields of a buffer of at least 37 bytes.
pub open spec fn session_of(d: Seq<u8>) -> SessionData {
    SessionData {
        track_id: as_i8(d[36] as int) as i8,
        session_type: d[35],
        track_temperature: as_i8(d[30] as int) as i8,
        air_temperature: as_i8(d[31] as int) as i8,
    }
}

/// Parse the limited session fields used by this adapter from a Session packet.
pub fn parse_session_data(raw: &[u8]) -> (r: Result<SessionData, TelemetryError>)
    ensures
        raw@.len() < MIN_SESSION_SIZE ==> r == Err::<SessionData, TelemetryError>(
            TelemetryError::TooShort { needed: MIN_SESSION_SIZE, actual: raw@.len() as usize },
        ),
        raw@.len() >= MIN_SESSION_SIZE ==> r == Ok::<SessionData, TelemetryError>(session_of(raw@)),
{
    if raw.len() < MIN_SESSION_SIZE {
        return Err(TelemetryError::TooShort { needed: MIN_SESSION_SIZE, actual: raw.len() });
    }
    let mut r = ByteReader::at(raw, HEADER_SIZE);
    r.skip(1)?;
    let track_temperature = r.i8()?;
    let air_temperature = r.i8()?;
    r.skip(1)?;
    r.skip(2)?;
    let session_type = r.u8()?;
    let track_id = r.i8()?;
    Ok(SessionData { track_id, session_type, track_temperature, air_temperature })
}

// ── Frame flags ──────────────────────────────────────────────────────────────

/// The driver-aid and pit flags of one frame.
#[derive(Debug, Clone, Copy, PartialEq, Eq, Structural)]
pub struct F1FrameFlags {
    pub pit_limiter: bool,
    pub in_pits: bool,
    pub drs_active: bool,
    pub drs_available: bool,
    pub traction_control: bool,
    pub abs_active: bool,
    pub ers_available: bool,
}

/// A single-precision bit pattern that denotes a value strictly above zero:
/// sign bit clear, not zero, not NaN.
pub open spec fn positive_float_bits(bits: u32) -> bool {
    0 < bits && bits <= 0x7F80_0000
}

/// The flags of a frame: each set when its status byte is non-zero; the pit
/// limiter also counts as being in the pits; ERS is available when the
/// store holds energy.
pub open spec fn frame_flags_of(telemetry: CarTelemetryData, status: CarStatusData) -> F1FrameFlags {
    F1FrameFlags {
        pit_limiter: status.pit_limiter_status != 0,
        in_pits: status.pit_limiter_status != 0,
        drs_active: telemetry.drs != 0,
        drs_available: status.drs_allowed != 0,
        traction_control: status.traction_control != 0,
        abs_active: status.anti_lock_brakes != 0,
        ers_available: positive_float_bits(status.ers_store_energy_bits),
    }
}

/// The flags a normalized frame carries.
pub fn frame_flags(telemetry: &CarTelemetryData, status: &CarStatusData) -> (r: F1FrameFlags)
    ensures
        r == frame_flags_of(*telemetry, *status),
{
    let pit_limiter = status.pit_limiter_status != 0;
    F1FrameFlags {
        pit_limiter,
        in_pits: pit_limiter,
        drs_active: telemetry.drs != 0,
        drs_available: status.drs_allowed != 0,
        traction_control: status.traction_control != 0,
        abs_active: status.anti_lock_brakes != 0,
        ers_available: 0 < status.ers_store_energy_bits && status.ers_store_energy_bits <= 0x7F80_0000,
    }
}

/// Where each flag of a frame comes from: DRS is available exactly when the
/// status entry allows it, whatever the telemetry's DRS flap byte says, and
/// active exactly when the flap is open, whatever the status says; the pit
/// limiter and being in the pits both follow the status's limiter byte,
/// traction control and ABS their own status bytes, whatever the telemetry
/// says; ERS is available exactly when the stored energy is a finite value
/// above zero.
pub proof fn lemma_frame_flag_sources(
    telemetry: CarTelemetryData,
    status: CarStatusData,
    other_telemetry: CarTelemetryData,
    other_status: CarStatusData,
)
    ensures
        frame_flags_of(telemetry, status).drs_available <==> status.drs_allowed != 0,
        frame_flags_of(other_telemetry, status).drs_available == frame_flags_of(telemetry, status).drs_available,
        frame_flags_of(telemetry, status).drs_active <==> telemetry.drs != 0,
        frame_flags_of(telemetry, other_status).drs_active == frame_flags_of(telemetry, status).drs_active,
        frame_flags_of(telemetry, status).pit_limiter <==> status.pit_limiter_status != 0,
        frame_flags_of(telemetry, status).in_pits <==> status.pit_limiter_status != 0,
        frame_flags_of(telemetry, status).traction_control <==> status.traction_control != 0,
        frame_flags_of(telemetry, status).abs_active <==> status.anti_lock_brakes != 0,
        frame_flags_of(telemetry, status).ers_available <==> (0 < status.ers_store_energy_bits
            && status.ers_store_energy_bits <= 0x7F80_0000),
        frame_flags_of(other_telemetry, status).pit_limiter == frame_flags_of(telemetry, status).pit_limiter,
        frame_flags_of(other_telemetry, status).traction_control == frame_flags_of(telemetry, status).traction_control,
        frame_flags_of(other_telemetry, status).abs_active == frame_flags_of(telemetry, status).abs_active,
        frame_flags_of(other_telemetry, status).ers_available == frame_flags_of(telemetry, status).ers_available,
{
}

/// The flags of a frame read off a Car Status packet of 1239 bytes or more:
/// for the player's entry (29 header bytes, then 55 bytes per car), DRS is
/// available exactly when the entry's byte 22 (drsAllowed) is non-zero,
/// traction control and ABS follow bytes 0 and 1, and the pit limiter byte
/// 4, whatever the Car Telemetry packet says.
pub proof fn lemma_status_packet_flags(telemetry: CarTelemetryData, raw: Seq<u8>, player: int)
    requires
        raw.len() >= 1239,
        0 <= player < 22,
    ensures
        frame_flags_of(telemetry, status_at(raw, 29 + 55 * player)).drs_available <==> raw[29 + 55 * player + 22] != 0,
        frame_flags_of(telemetry, status_at(raw, 29 + 55 * player)).traction_control <==> raw[29 + 55 * player] != 0,
        frame_flags_of(telemetry, status_at(raw, 29 + 55 * player)).abs_active <==> raw[29 + 55 * player + 1] != 0,
        frame_flags_of(telemetry, status_at(raw, 29 + 55 * player)).pit_limiter <==> raw[29 + 55 * player + 4] != 0,
{
}

// ── Pairing telemetry with status ────────────────────────────────────────────

/// Everything one normalized frame is built from.
#[derive(Debug, Clone, Copy)]
pub struct F125Frame {
    pub telemetry: CarTelemetryData,
    pub status: CarStatusData,
    pub session: SessionData,
}

/// Combined mutable state kept between packets.
#[derive(Debug, Clone, Copy)]
pub struct F125State {
    pub latest_telemetry: Option<CarTelemetryData>,
    pub latest_status: Option<CarStatusData>,
    pub session: SessionData,
}

impl F125State {
    /// A state that has seen no packet yet.
    pub fn new() -> (r: Self)
        ensures
            r.latest_telemetry is None,
            r.latest_status is None,
            r.session == (SessionData { track_id: 0, session_type: 0, track_temperature: 0, air_temperature: 0 }),
    {
        F125State { latest_telemetry: None, latest_status: None, session: SessionData::new() }
    }
}

/// The frame a state can emit: present once both a telemetry and a status
/// entry have been seen.
pub open spec fn emitted(state: F125State) -> Option<F125Frame> {
    match (state.latest_telemetry, state.latest_status) {
        (Some(t), Some(s)) => Some(F125Frame { telemetry: t, status: s, session: state.session }),
        _ => None,
    }
}

fn maybe_emit(state: &F125State) -> (r: Option<F125Frame>)
    ensures
        r == emitted(*state),
{
    match (state.latest_telemetry, state.latest_status) {
        (Some(t), Some(s)) => Some(F125Frame { telemetry: t, status: s, session: state.session }),
        _ => None,
    }
}

/// The result of processing one raw packet against a state: the new state
/// and what is returned, for packets whose header is valid and whose format
/// has already been accepted. `status` is the status entry layout's reader.
pub open spec fn accepts(d: Seq<u8>, old_state: F125State, new_state: F125State, r: Result<Option<F125Frame>, TelemetryError>, status: Result<CarStatusData, TelemetryError>) -> bool {
    let h = header_of(d);
    let player = h.player_car_index as usize;
    if h.packet_id == PACKET_ID_SESSION {
        if d.len() < MIN_SESSION_SIZE {
            r == Err::<Option<F125Frame>, TelemetryError>(TelemetryError::TooShort { needed: MIN_SESSION_SIZE, actual: d.len() as usize })
                && new_state == old_state
        } else {
            new_state == (F125State { session: session_of(d), ..old_state })
                && r == Ok::<Option<F125Frame>, TelemetryError>(None)
        }
    } else if h.packet_id == PACKET_ID_CAR_TELEMETRY {
        if d.len() < MIN_CAR_TELEMETRY_PACKET_SIZE {
            r == Err::<Option<F125Frame>, TelemetryError>(TelemetryError::TooShort { needed: MIN_CAR_TELEMETRY_PACKET_SIZE, actual: d.len() as usize })
                && new_state == old_state
        } else if player >= NUM_CARS {
            r == Err::<Option<F125Frame>, TelemetryError>(TelemetryError::PlayerIndexOutOfRange(player))
                && new_state == old_state
        } else {
            &&& new_state.latest_status == old_state.latest_status
            &&& new_state.session == old_state.session
            &&& new_state.latest_telemetry matches Some(t)
            &&& telemetry_at(t, d, HEADER_SIZE + player * CAR_TELEMETRY_ENTRY_SIZE)
            &&& r == Ok::<Option<F125Frame>, TelemetryError>(emitted(new_state))
        }
    } else if h.packet_id == PACKET_ID_CAR_STATUS {
        match status {
            Err(e) => r == Err::<Option<F125Frame>, TelemetryError>(e) && new_state == old_state,
            Ok(s) => new_state == (F125State { latest_status: Some(s), ..old_state })
                && r == Ok::<Option<F125Frame>, TelemetryError>(emitted(new_state)),
        }
    } else {
        new_state == old_state && r == Ok::<Option<F125Frame>, TelemetryError>(None)
    }
}

/// Process a raw packet of an accepted format, updating `state`.
pub(crate) fn dispatch_packet(
    state: &mut F125State,
    raw: &[u8],
    header: PacketHeader,
    status: Result<CarStatusData, TelemetryError>,
) -> (r: Result<Option<F125Frame>, TelemetryError>)
    requires
        raw@.len() >= HEADER_SIZE,
        header == header_of(raw@),
    ensures
        accepts(raw@, *old(state), *final(state), r, status),
{
    let player = header.player_car_index as usize;
    if header.packet_id == PACKET_ID_SESSION {
        state.session = parse_session_data(raw)?;
        Ok(None)
    } else if header.packet_id == PACKET_ID_CAR_TELEMETRY {
        let telem = parse_car_telemetry(raw, player)?;
        state.latest_telemetry = Some(telem);
        Ok(maybe_emit(state))
    } else if header.packet_id == PACKET_ID_CAR_STATUS {
        let s = status?;
        state.latest_status = Some(s);
        Ok(maybe_emit(state))
    } else {
        Ok(None)
    }
}

/// The status entry of a format-2025 packet for its player.
pub open spec fn status_2025(d: Seq<u8>) -> Result<CarStatusData, TelemetryError> {
    let player = header_of(d).player_car_index as usize;
    if d.len() < MIN_CAR_STATUS_PACKET_SIZE {
        Err(TelemetryError::TooShort { needed: MIN_CAR_STATUS_PACKET_SIZE, actual: d.len() as usize })
    } else if player >= NUM_CARS {
        Err(TelemetryError::PlayerIndexOutOfRange(player))
    } else {
        Ok(status_at(d, HEADER_SIZE + player * CAR_STATUS_ENTRY_SIZE))
    }
}

// ── Adapter ──────────────────────────────────────────────────────────────────

/// Native F1 25 UDP telemetry adapter configuration.
#[derive(Debug, Clone, Copy, PartialEq, Eq, Structural)]
pub struct F1_25Adapter {
    pub bind_port: u16,
    pub update_rate_ms: u64,
    pub heartbeat_timeout_ms: u64,
}

impl F1_25Adapter {
    /// Configuration from the port and heartbeat-timeout settings (the
    /// values of `OPENRACING_F1_25_UDP_PORT` and
    /// `OPENRACING_F1_25_HEARTBEAT_TIMEOUT_MS`): positive values override the
    /// defaults.
    pub fn new(port_setting: Option<&str>, heartbeat_setting: Option<&str>) -> (r: Self)
        ensures
            r.bind_port as int == setting_in_range(text_of(port_setting), u16::MAX as int, 1, u16::MAX as int, DEFAULT_PORT as int),
            r.heartbeat_timeout_ms as int == setting_in_range(text_of(heartbeat_setting), u64::MAX as int, 1, u64::MAX as int, DEFAULT_HEARTBEAT_TIMEOUT_MS as int),
            r.update_rate_ms == DEFAULT_UPDATE_RATE_MS,
    {
        F1_25Adapter {
            bind_port: positive_u16_setting(port_setting, DEFAULT_PORT),
            update_rate_ms: DEFAULT_UPDATE_RATE_MS,
            heartbeat_timeout_ms: positive_u64_setting(heartbeat_setting, DEFAULT_HEARTBEAT_TIMEOUT_MS),
        }
    }

    /// Override the UDP bind port.
    pub fn with_port(self, port: u16) -> (r: Self)
        ensures
            r == (F1_25Adapter { bind_port: port, ..self }),
    {
        F1_25Adapter { bind_port: port, ..self }
    }

    pub fn game_id(&self) -> (r: &'static str)
        ensures
            r@ == "f1_25"@,
    {
        "f1_25"
    }

    pub fn expected_update_rate_ms(&self) -> (r: u64)
        ensures
            r == self.update_rate_ms,
    {
        self.update_rate_ms
    }

    /// Whether a packet received at `last_packet_ns` (0 = never) is recent
    /// at `now_ns`.
    pub fn is_recent_packet(&self, last_packet_ns: u64, now_ns: u64) -> (r: bool)
        ensures
            r == heartbeat_fresh(last_packet_ns, now_ns, self.heartbeat_timeout_ms),
    {
        is_recent_packet(last_packet_ns, now_ns, self.heartbeat_timeout_ms)
    }

    /// Process a raw packet, updating `state`; returns the frame to emit once
    /// both telemetry and status are known.
    pub fn process_packet(state: &mut F125State, raw: &[u8]) -> (r: Result<Option<F125Frame>, TelemetryError>)
        ensures
            raw@.len() < HEADER_SIZE ==> r == Err::<Option<F125Frame>, TelemetryError>(
                TelemetryError::TooShort { needed: HEADER_SIZE, actual: raw@.len() as usize },
            ) && *final(state) == *old(state),
            raw@.len() >= HEADER_SIZE && header_of(raw@).packet_format != PACKET_FORMAT_2025 ==> r
                == Err::<Option<F125Frame>, TelemetryError>(
                TelemetryError::UnexpectedFormat(header_of(raw@).packet_format),
            ) && *final(state) == *old(state),
            raw@.len() >= HEADER_SIZE && header_of(raw@).packet_format == PACKET_FORMAT_2025
                ==> accepts(raw@, *old(state), *final(state), r, status_2025(raw@)),
    {
        let header = parse_header(raw)?;
        if header.packet_format != PACKET_FORMAT_2025 {
            return Err(TelemetryError::UnexpectedFormat(header.packet_format));
        }
        let status = if header.packet_id == PACKET_ID_CAR_STATUS {
            parse_car_status(raw, header.player_car_index as usize)
        } else {
            Err(TelemetryError::UnsupportedPacketId(header.packet_id))
        };
        dispatch_packet(state, raw, header, status)
    }

    /// Normalize a single raw packet: a Car Telemetry packet gives a frame
    /// with zeroed status and session data; a valid status or session packet
    /// alone cannot.
    pub fn normalize(&self, raw: &[u8]) -> (r: Result<F125Frame, TelemetryError>)
        ensures
            raw@.len() < HEADER_SIZE ==> r == Err::<F125Frame, TelemetryError>(
                TelemetryError::TooShort { needed: HEADER_SIZE, actual: raw@.len() as usize },
            ),
            raw@.len() >= HEADER_SIZE && header_of(raw@).packet_format != PACKET_FORMAT_2025 ==> r
                == Err::<F125Frame, TelemetryError>(
                TelemetryError::UnexpectedFormat(header_of(raw@).packet_format),
            ),
            raw@.len() >= HEADER_SIZE && header_of(raw@).packet_format == PACKET_FORMAT_2025 ==> {
                let h = header_of(raw@);
                let player = h.player_car_index as usize;
                if h.packet_id == PACKET_ID_CAR_TELEMETRY {
                    if raw@.len() < MIN_CAR_TELEMETRY_PACKET_SIZE {
                        r == Err::<F125Frame, TelemetryError>(TelemetryError::TooShort { needed: MIN_CAR_TELEMETRY_PACKET_SIZE, actual: raw@.len() as usize })
                    } else if player >= NUM_CARS {
                        r == Err::<F125Frame, TelemetryError>(TelemetryError::PlayerIndexOutOfRange(player))
                    } else {
                        r matches Ok(f) && telemetry_at(f.telemetry, raw@, HEADER_SIZE + player * CAR_TELEMETRY_ENTRY_SIZE)
                            && f.status == CarStatusData::zeroed()
                            && f.session == (SessionData { track_id: 0, session_type: 0, track_temperature: 0, air_temperature: 0 })
                    }
                } else if h.packet_id == PACKET_ID_CAR_STATUS {
                    match status_2025(raw@) {
                        Err(e) => r == Err::<F125Frame, TelemetryError>(e),
                        Ok(_) => r == Err::<F125Frame, TelemetryError>(TelemetryError::IncompletePacket(PACKET_ID_CAR_STATUS)),
                    }
                } else if h.packet_id == PACKET_ID_SESSION {
                    if raw@.len() < MIN_SESSION_SIZE {
                        r == Err::<F125Frame, TelemetryError>(TelemetryError::TooShort { needed: MIN_SESSION_SIZE, actual: raw@.len() as usize })
                    } else {
                        r == Err::<F125Frame, TelemetryError>(TelemetryError::IncompletePacket(PACKET_ID_SESSION))
                    }
                } else {
                    r == Err::<F125Frame, TelemetryError>(TelemetryError::UnsupportedPacketId(h.packet_id))
                }
            },
    {
        let header = parse_header(raw)?;
        if header.packet_format != PACKET_FORMAT_2025 {
            return Err(TelemetryError::UnexpectedFormat(header.packet_format));
        }
        let player = header.player_car_index as usize;
        if header.packet_id == PACKET_ID_CAR_TELEMETRY {
            let telemetry = parse_car_telemetry(raw, player)?;
            Ok(F125Frame { telemetry, status: CarStatusData::default_for_normalize(), session: SessionData::new() })
        } else if header.packet_id == PACKET_ID_CAR_STATUS {
            let _ = parse_car_status(raw, player)?;
            Err(TelemetryError::IncompletePacket(PACKET_ID_CAR_STATUS))
        } else if header.packet_id == PACKET_ID_SESSION {
            let _ = parse_session_data(raw)?;
            Err(TelemetryError::IncompletePacket(PACKET_ID_SESSION))
        } else {
            Err(TelemetryError::UnsupportedPacketId(header.packet_id))
        }
    }
}

// ── Test-packet builders ─────────────────────────────────────────────────────

/// A 29-byte header with the given game year; session UID, time and frame
/// counters zero, secondary player index 255.
pub open spec fn header_bytes(packet_format: u16, game_year: u8, packet_id: u8, player_index: u8) -> Seq<u8> {
    u16_le_bytes(packet_format as int) + seq![game_year, 1u8, 0u8, 1u8, packet_id] + zeros(20) + seq![player_index, 255u8]
}

pub(crate) fn push_header(buf: &mut Vec<u8>, packet_format: u16, game_year: u8, packet_id: u8, player_index: u8)
    ensures
        final(buf)@ == old(buf)@ + header_bytes(packet_format, game_year, packet_id, player_index),
{
    push_u16_le(buf, packet_format);
    buf.push(game_year);
    buf.push(1);
    buf.push(0);
    buf.push(1);
    buf.push(packet_id);
    push_zeros(buf, 20);
    buf.push(player_index);
    buf.push(255);
    assert(buf@ =~= old(buf)@ + header_bytes(packet_format, game_year, packet_id, player_index));
}

/// A header for format 2025 (game year 25).
pub fn build_header_bytes(packet_format: u16, packet_id: u8, player_index: u8) -> (r: Vec<u8>)
    ensures
        r@ == header_bytes(packet_format, 25, packet_id, player_index),
{
    let mut buf: Vec<u8> = Vec::new();
    push_header(&mut buf, packet_format, 25, packet_id, player_index);
    assert(buf@ =~= header_bytes(packet_format, 25, packet_id, player_index));
    buf
}

/// A header reads back as the fields it was built from.
pub proof fn lemma_header_roundtrip(packet_format: u16, game_year: u8, packet_id: u8, player_index: u8)
    ensures
        header_bytes(packet_format, game_year, packet_id, player_index).len() == HEADER_SIZE,
        header_of(header_bytes(packet_format, game_year, packet_id, player_index)) == (PacketHeader {
            packet_format,
            packet_id,
            player_car_index: player_index,
        }),
{
    let h = header_bytes(packet_format, game_year, packet_id, player_index);
    lemma_le_u16_of(h, 0, packet_format);
}

/// The Session packet body fields used here, after a format-2025 header.
pub open spec fn session_packet_bytes(track_id: i8, session_type: u8, track_temperature: i8, air_temperature: i8) -> Seq<u8> {
    header_bytes(PACKET_FORMAT_2025, 25, PACKET_ID_SESSION, 0) + seq![
        0u8,
        (if track_temperature >= 0 { track_temperature as int } else { track_temperature + 256 }) as u8,
        (if air_temperature >= 0 { air_temperature as int } else { air_temperature + 256 }) as u8,
        0u8,
        0u8,
        0u8,
        session_type,
        (if track_id >= 0 { track_id as int } else { track_id + 256 }) as u8,
    ]
}

/// Build a minimal valid Session packet.
pub fn build_session_packet(track_id: i8, session_type: u8, track_temperature: i8, air_temperature: i8) -> (r: Vec<u8>)
    ensures
        r@ == session_packet_bytes(track_id, session_type, track_temperature, air_temperature),
{
    let mut buf = build_header_bytes(PACKET_FORMAT_2025, PACKET_ID_SESSION, 0);
    buf.push(0);
    buf.push(i8_to_u8(track_temperature));
    buf.push(i8_to_u8(air_temperature));
    buf.push(0);
    push_u16_le(&mut buf, 0);
    buf.push(session_type);
    buf.push(i8_to_u8(track_id));
    assert(buf@ =~= session_packet_bytes(track_id, session_type, track_temperature, air_temperature));
    buf
}

/// A built Session packet parses back to the fields it was built from.
pub proof fn lemma_session_roundtrip(track_id: i8, session_type: u8, track_temperature: i8, air_temperature: i8)
    ensures
        session_packet_bytes(track_id, session_type, track_temperature, air_temperature).len() == MIN_SESSION_SIZE,
        session_of(session_packet_bytes(track_id, session_type, track_temperature, air_temperature)) == (SessionData {
            track_id,
            session_type,
            track_temperature,
            air_temperature,
        }),
        header_of(session_packet_bytes(track_id, session_type, track_temperature, air_temperature)) == (PacketHeader {
            packet_format: PACKET_FORMAT_2025,
            packet_id: PACKET_ID_SESSION,
            player_car_index: 0,
        }),
{
    let d = session_packet_bytes(track_id, session_type, track_temperature, air_temperature);
    lemma_le_u16_of(d, 0, PACKET_FORMAT_2025);
}

/// One telemetry entry with the fields the builders set; all others zero.
pub open spec fn telemetry_entry(speed_kmh: u16, gear: i8, engine_rpm: u16, throttle_bits: u32, brake_bits: u32, steer_bits: u32, drs: u8, pressures: Seq<u32>) -> Seq<u8> {
    u16_le_bytes(speed_kmh as int) + u32_le_bytes(throttle_bits as int) + u32_le_bytes(steer_bits as int)
        + u32_le_bytes(brake_bits as int) + seq![0u8, (if gear >= 0 { gear as int } else { gear + 256 }) as u8]
        + u16_le_bytes(engine_rpm as int) + seq![drs] + zeros(21) + u32_le_bytes(pressures[0] as int)
        + u32_le_bytes(pressures[1] as int) + u32_le_bytes(pressures[2] as int) + u32_le_bytes(pressures[3] as int)
        + zeros(4)
}

/// A Car Telemetry packet: header, the player's entry among 22 zeroed entries,
/// and a 3-byte zero trailer.
pub open spec fn telemetry_packet_bytes(header: Seq<u8>, player_index: u8, entry: Seq<u8>) -> Seq<u8> {
    header + zeros(60 * player_index as int) + entry + zeros(60 * (21 - player_index)) + zeros(3)
}

/// The first 19 bytes of a telemetry entry.
pub open spec fn telemetry_entry_head(speed_kmh: u16, gear: i8, engine_rpm: u16, throttle_bits: u32, brake_bits: u32, steer_bits: u32, drs: u8) -> Seq<u8> {
    u16_le_bytes(speed_kmh as int) + u32_le_bytes(throttle_bits as int) + u32_le_bytes(steer_bits as int)
        + u32_le_bytes(brake_bits as int) + seq![0u8, (if gear >= 0 { gear as int } else { gear + 256 }) as u8]
        + u16_le_bytes(engine_rpm as int) + seq![drs]
}

/// The last 41 bytes of a telemetry entry.
pub open spec fn telemetry_entry_tail(pressures: Seq<u32>) -> Seq<u8> {
    zeros(21) + u32_le_bytes(pressures[0] as int) + u32_le_bytes(pressures[1] as int)
        + u32_le_bytes(pressures[2] as int) + u32_le_bytes(pressures[3] as int) + zeros(4)
}

proof fn lemma_entry_split(speed_kmh: u16, gear: i8, engine_rpm: u16, throttle_bits: u32, brake_bits: u32, steer_bits: u32, drs: u8, pressures: Seq<u32>)
    ensures
        telemetry_entry(speed_kmh, gear, engine_rpm, throttle_bits, brake_bits, steer_bits, drs, pressures)
            =~= telemetry_entry_head(speed_kmh, gear, engine_rpm, throttle_bits, brake_bits, steer_bits, drs)
            + telemetry_entry_tail(pressures),
{
}

fn telemetry_entry_vec(speed_kmh: u16, gear: i8, engine_rpm: u16, throttle_bits: u32, brake_bits: u32, steer_bits: u32, drs: u8, tyres_pressure_bits: [u32; 4]) -> (r: Vec<u8>)
    ensures
        r@ == telemetry_entry(speed_kmh, gear, engine_rpm, throttle_bits, brake_bits, steer_bits, drs, tyres_pressure_bits@),
{
    let mut head: Vec<u8> = Vec::new();
    push_u16_le(&mut head, speed_kmh);
    push_u32_le(&mut head, throttle_bits);
    push_u32_le(&mut head, steer_bits);
    push_u32_le(&mut head, brake_bits);
    head.push(0);
    head.push(i8_to_u8(gear));
    push_u16_le(&mut head, engine_rpm);
    head.push(drs);
    assert(head@ =~= telemetry_entry_head(speed_kmh, gear, engine_rpm, throttle_bits, brake_bits, steer_bits, drs));
    let mut tail: Vec<u8> = Vec::new();
    push_zeros(&mut tail, 21);
    push_u32_le(&mut tail, tyres_pressure_bits[0]);
    push_u32_le(&mut tail, tyres_pressure_bits[1]);
    push_u32_le(&mut tail, tyres_pressure_bits[2]);
    push_u32_le(&mut tail, tyres_pressure_bits[3]);
    push_zeros(&mut tail, 4);
    assert(tail@ =~= telemetry_entry_tail(tyres_pressure_bits@));
    head.append(&mut tail);
    proof {
        lemma_entry_split(speed_kmh, gear, engine_rpm, throttle_bits, brake_bits, steer_bits, drs, tyres_pressure_bits@);
    }
    head
}

pub(crate) fn build_telemetry_packet(
    packet_format: u16,
    game_year: u8,
    player_index: u8,
    speed_kmh: u16,
    gear: i8,
    engine_rpm: u16,
    throttle_bits: u32,
    brake_bits: u32,
    steer_bits: u32,
    drs: u8,
    tyres_pressure_bits: [u32; 4],
) -> (r: Vec<u8>)
    requires
        player_index < 22,
    ensures
        r@ == telemetry_packet_bytes(
            header_bytes(packet_format, game_year, PACKET_ID_CAR_TELEMETRY, player_index),
            player_index,
            telemetry_entry(speed_kmh, gear, engine_rpm, throttle_bits, brake_bits, steer_bits, drs, tyres_pressure_bits@),
        ),
{
    let mut buf: Vec<u8> = Vec::new();
    push_header(&mut buf, packet_format, game_year, PACKET_ID_CAR_TELEMETRY, player_index);
    push_zeros(&mut buf, 60 * player_index as usize);
    let mut entry = telemetry_entry_vec(speed_kmh, gear, engine_rpm, throttle_bits, brake_bits, steer_bits, drs, tyres_pressure_bits);
    buf.append(&mut entry);
    push_zeros(&mut buf, 60 * (21 - player_index as usize));
    push_zeros(&mut buf, 3);
    buf
}

/// Build a minimal valid Car Telemetry packet for the car at `player_index`;
/// single-precision inputs are given as bit patterns.
pub fn build_car_telemetry_packet(
    player_index: u8,
    speed_kmh: u16,
    gear: i8,
    engine_rpm: u16,
    throttle_bits: u32,
    brake_bits: u32,
    drs: u8,
    tyres_pressure_bits: [u32; 4],
) -> (r: Vec<u8>)
    requires
        player_index < 22,
    ensures
        r@ == telemetry_packet_bytes(
            header_bytes(PACKET_FORMAT_2025, 25, PACKET_ID_CAR_TELEMETRY, player_index),
            player_index,
            telemetry_entry(speed_kmh, gear, engine_rpm, throttle_bits, brake_bits, 0, drs, tyres_pressure_bits@),
        ),
{
    build_telemetry_packet(PACKET_FORMAT_2025, 25, player_index, speed_kmh, gear, engine_rpm, throttle_bits, brake_bits, 0, drs, tyres_pressure_bits)
}

/// Byte `k` of the player's entry sits at `29 + 60 * player + k` of the packet.
proof fn lemma_entry_position(header: Seq<u8>, player_index: u8, entry: Seq<u8>, k: int)
    requires
        header.len() == HEADER_SIZE,
        player_index < 22,
        entry.len() == 60,
        0 <= k < 60,
    ensures
        telemetry_packet_bytes(header, player_index, entry)[HEADER_SIZE + player_index * CAR_TELEMETRY_ENTRY_SIZE + k] == entry[k],
        telemetry_packet_bytes(header, player_index, entry).len() == MIN_CAR_TELEMETRY_PACKET_SIZE,
{
}

/// The bytes of an entry at the offsets the parser reads.
proof fn lemma_entry_fields(speed_kmh: u16, gear: i8, engine_rpm: u16, throttle_bits: u32, brake_bits: u32, steer_bits: u32, drs: u8, pressures: Seq<u32>)
    requires
        pressures.len() == 4,
    ensures
        ({
            let e = telemetry_entry(speed_kmh, gear, engine_rpm, throttle_bits, brake_bits, steer_bits, drs, pressures);
            &&& e.len() == 60
            &&& e.subrange(0, 2) == u16_le_bytes(speed_kmh as int)
            &&& e.subrange(2, 6) == u32_le_bytes(throttle_bits as int)
            &&& e.subrange(6, 10) == u32_le_bytes(steer_bits as int)
            &&& e.subrange(10, 14) == u32_le_bytes(brake_bits as int)
            &&& e[15] == (if gear >= 0 { gear as int } else { gear + 256 }) as u8
            &&& e.subrange(16, 18) == u16_le_bytes(engine_rpm as int)
            &&& e[18] == drs
            &&& e.subrange(19, 40) == zeros(21)
            &&& e.subrange(40, 44) == u32_le_bytes(pressures[0] as int)
            &&& e.subrange(44, 48) == u32_le_bytes(pressures[1] as int)
            &&& e.subrange(48, 52) == u32_le_bytes(pressures[2] as int)
            &&& e.subrange(52, 56) == u32_le_bytes(pressures[3] as int)
        }),
{
    lemma_entry_split(speed_kmh, gear, engine_rpm, throttle_bits, brake_bits, steer_bits, drs, pressures);
    let e = telemetry_entry(speed_kmh, gear, engine_rpm, throttle_bits, brake_bits, steer_bits, drs, pressures);
    let h = telemetry_entry_head(speed_kmh, gear, engine_rpm, throttle_bits, brake_bits, steer_bits, drs);
    let t = telemetry_entry_tail(pressures);
    assert(e.subrange(0, 2) =~= u16_le_bytes(speed_kmh as int));
    assert(e.subrange(2, 6) =~= u32_le_bytes(throttle_bits as int));
    assert(e.subrange(6, 10) =~= u32_le_bytes(steer_bits as int));
    assert(e.subrange(10, 14) =~= u32_le_bytes(brake_bits as int));
    assert(e.subrange(16, 18) =~= u16_le_bytes(engine_rpm as int));
    assert(e.subrange(19, 40) =~= zeros(21));
    assert(e.subrange(40, 44) =~= u32_le_bytes(pressures[0] as int));
    assert(e.subrange(44, 48) =~= u32_le_bytes(pressures[1] as int));
    assert(e.subrange(48, 52) =~= u32_le_bytes(pressures[2] as int));
    assert(e.subrange(52, 56) =~= u32_le_bytes(pressures[3] as int));
}

/// A built Car Telemetry packet parses back, for its player, to the fields it
/// was built from (single-precision fields through the finiteness filter)
/// with every other field zero.
#[verifier::rlimit(40)]
pub proof fn lemma_telemetry_roundtrip(
    header: Seq<u8>,
    player_index: u8,
    speed_kmh: u16,
    gear: i8,
    engine_rpm: u16,
    throttle_bits: u32,
    brake_bits: u32,
    steer_bits: u32,
    drs: u8,
    pressures: Seq<u32>,
    t: CarTelemetryData,
)
    requires
        header.len() == HEADER_SIZE,
        player_index < 22,
        pressures.len() == 4,
        telemetry_at(t, telemetry_packet_bytes(header, player_index, telemetry_entry(speed_kmh, gear, engine_rpm, throttle_bits, brake_bits, steer_bits, drs, pressures)), HEADER_SIZE + player_index * CAR_TELEMETRY_ENTRY_SIZE),
    ensures
        telemetry_packet_bytes(header, player_index, telemetry_entry(speed_kmh, gear, engine_rpm, throttle_bits, brake_bits, steer_bits, drs, pressures)).len() == MIN_CAR_TELEMETRY_PACKET_SIZE,
        t.speed_kmh == speed_kmh,
        t.gear == gear,
        t.engine_rpm == engine_rpm,
        t.drs == drs,
        t.throttle_bits == finite_or_zero(throttle_bits),
        t.brake_bits == finite_or_zero(brake_bits),
        t.steer_bits == finite_or_zero(steer_bits),
        forall|j: int| 0 <= j < 4 ==> #[trigger] t.tyres_pressure_bits@[j] == finite_or_zero(pressures[j]),
        forall|j: int| 0 <= j < 4 ==> #[trigger] t.brakes_temperature@[j] == 0,
        forall|j: int| 0 <= j < 4 ==> #[trigger] t.tyres_surface_temperature@[j] == 0,
        forall|j: int| 0 <= j < 4 ==> #[trigger] t.tyres_inner_temperature@[j] == 0,
        t.engine_temperature == 0,
{
    let e = telemetry_entry(speed_kmh, gear, engine_rpm, throttle_bits, brake_bits, steer_bits, drs, pressures);
    lemma_entry_fields(speed_kmh, gear, engine_rpm, throttle_bits, brake_bits, steer_bits, drs, pressures);
    let d = telemetry_packet_bytes(header, player_index, e);
    let b = HEADER_SIZE + player_index * CAR_TELEMETRY_ENTRY_SIZE;
    assert forall|k: int| 0 <= k < 60 implies #[trigger] d[b + k] == e[k] by {
        lemma_entry_position(header, player_index, e, k);
    }
    lemma_entry_position(header, player_index, e, 0);
    assert forall|k: int| 19 <= k < 40 implies #[trigger] d[b + k] == 0u8 by {
        assert(d[b + k] == e[k]);
        assert(e[k] == e.subrange(19, 40)[k - 19]);
    }
    assert(d[b] == e.subrange(0, 2)[0] && d[b + 1] == e.subrange(0, 2)[1]);
    lemma_le_u16_of(d, b, speed_kmh);
    assert(d[b + 2] == e.subrange(2, 6)[0] && d[b + 3] == e.subrange(2, 6)[1] && d[b + 4] == e.subrange(2, 6)[2] && d[b + 5] == e.subrange(2, 6)[3]);
    lemma_le_u32_of(d, b + 2, throttle_bits);
    assert(d[b + 6] == e.subrange(6, 10)[0] && d[b + 7] == e.subrange(6, 10)[1] && d[b + 8] == e.subrange(6, 10)[2] && d[b + 9] == e.subrange(6, 10)[3]);
    lemma_le_u32_of(d, b + 6, steer_bits);
    assert(d[b + 10] == e.subrange(10, 14)[0] && d[b + 11] == e.subrange(10, 14)[1] && d[b + 12] == e.subrange(10, 14)[2] && d[b + 13] == e.subrange(10, 14)[3]);
    lemma_le_u32_of(d, b + 10, brake_bits);
    assert(d[b + 16] == e.subrange(16, 18)[0] && d[b + 17] == e.subrange(16, 18)[1]);
    lemma_le_u16_of(d, b + 16, engine_rpm);
    assert(d[b + 15] == e[15]);
    assert(d[b + 18] == e[18]);
    assert(d[b + 40] == e.subrange(40, 44)[0] && d[b + 41] == e.subrange(40, 44)[1] && d[b + 42] == e.subrange(40, 44)[2] && d[b + 43] == e.subrange(40, 44)[3]);
    lemma_le_u32_of(d, b + 40, pressures[0]);
    assert(d[b + 44] == e.subrange(44, 48)[0] && d[b + 45] == e.subrange(44, 48)[1] && d[b + 46] == e.subrange(44, 48)[2] && d[b + 47] == e.subrange(44, 48)[3]);
    lemma_le_u32_of(d, b + 44, pressures[1]);
    assert(d[b + 48] == e.subrange(48, 52)[0] && d[b + 49] == e.subrange(48, 52)[1] && d[b + 50] == e.subrange(48, 52)[2] && d[b + 51] == e.subrange(48, 52)[3]);
    lemma_le_u32_of(d, b + 48, pressures[2]);
    assert(d[b + 52] == e.subrange(52, 56)[0] && d[b + 53] == e.subrange(52, 56)[1] && d[b + 54] == e.subrange(52, 56)[2] && d[b + 55] == e.subrange(52, 56)[3]);
    lemma_le_u32_of(d, b + 52, pressures[3]);
    assert(t.tyres_pressure_bits@[0] == finite_or_zero(pressures[0]));
    assert(t.tyres_pressure_bits@[1] == finite_or_zero(pressures[1]));
    assert(t.tyres_pressure_bits@[2] == finite_or_zero(pressures[2]));
    assert(t.tyres_pressure_bits@[3] == finite_or_zero(pressures[3]));
    assert(d[b + 22] == 0 && d[b + 23] == 0 && d[b + 24] == 0 && d[b + 25] == 0 && d[b + 26] == 0 && d[b + 27] == 0 && d[b + 28] == 0 && d[b + 29] == 0);
    assert(t.brakes_temperature@[0] == 0 && t.brakes_temperature@[1] == 0 && t.brakes_temperature@[2] == 0 && t.brakes_temperature@[3] == 0);
    assert(d[b + 30] == 0 && d[b + 31] == 0 && d[b + 32] == 0 && d[b + 33] == 0 && d[b + 34] == 0 && d[b + 35] == 0 && d[b + 36] == 0 && d[b + 37] == 0 && d[b + 38] == 0 && d[b + 39] == 0);
    assert(t.tyres_surface_temperature@[0] == d[b + 30]);
    assert(t.tyres_surface_temperature@[1] == d[b + 31]);
    assert(t.tyres_surface_temperature@[2] == d[b + 32]);
    assert(t.tyres_surface_temperature@[3] == d[b + 33]);
    assert(t.tyres_inner_temperature@[0] == d[b + 34]);
    assert(t.tyres_inner_temperature@[1] == d[b + 35]);
    assert(t.tyres_inner_temperature@[2] == d[b + 36]);
    assert(t.tyres_inner_temperature@[3] == d[b + 37]);
}


/// Build a minimal valid Car Status packet (format 2025): the player's entry
/// among 22 zeroed ones; single-precision inputs are given as bit patterns.
pub fn build_car_status_packet(
    player_index: u8,
    fuel_in_tank_bits: u32,
    ers_store_energy_bits: u32,
    drs_allowed: u8,
    pit_limiter: u8,
    actual_tyre_compound: u8,
    max_rpm: u16,
) -> (r: Vec<u8>)
    requires
        player_index < 22,
    ensures
        r@ == status_packet_bytes(
            header_bytes(PACKET_FORMAT_2025, 25, PACKET_ID_CAR_STATUS, player_index),
            player_index,
            55,
            status_entry(55, 37, pit_limiter, fuel_in_tank_bits, max_rpm, drs_allowed, actual_tyre_compound, ers_store_energy_bits),
        ),
{
    build_status_packet(PACKET_FORMAT_2025, 55, 37, player_index, fuel_in_tank_bits, ers_store_energy_bits, drs_allowed, pit_limiter, actual_tyre_compound, max_rpm)
}

proof fn lemma_status_position(header: Seq<u8>, player_index: u8, entry: Seq<u8>, k: int)
    requires
        header.len() == HEADER_SIZE,
        player_index < 22,
        entry.len() == 55,
        0 <= k < 55,
    ensures
        status_packet_bytes(header, player_index, 55, entry)[HEADER_SIZE + player_index * CAR_STATUS_ENTRY_SIZE + k] == entry[k],
        status_packet_bytes(header, player_index, 55, entry).len() == MIN_CAR_STATUS_PACKET_SIZE,
{
}

/// A built Car Status packet (55-byte entries) parses back, for its player,
/// to the fields it was built from (single-precision fields through the
/// finiteness filter) with every other field zero.
#[verifier::rlimit(40)]
pub proof fn lemma_status_roundtrip(
    header: Seq<u8>,
    player_index: u8,
    fuel_in_tank_bits: u32,
    ers_store_energy_bits: u32,
    drs_allowed: u8,
    pit_limiter: u8,
    actual_tyre_compound: u8,
    max_rpm: u16,
)
    requires
        header.len() == HEADER_SIZE,
        player_index < 22,
    ensures
        ({
            let d = status_packet_bytes(header, player_index, 55, status_entry(55, 37, pit_limiter, fuel_in_tank_bits, max_rpm, drs_allowed, actual_tyre_compound, ers_store_energy_bits));
            &&& d.len() == MIN_CAR_STATUS_PACKET_SIZE
            &&& status_at(d, HEADER_SIZE + player_index * CAR_STATUS_ENTRY_SIZE) == (CarStatusData {
                pit_limiter_status: pit_limiter,
                fuel_in_tank_bits: finite_or_zero(fuel_in_tank_bits),
                max_rpm: max_rpm,
                drs_allowed: drs_allowed,
                actual_tyre_compound: actual_tyre_compound,
                ers_store_energy_bits: finite_or_zero(ers_store_energy_bits),
                ..CarStatusData::zeroed()
            })
        }),
{
    let e = status_entry(55, 37, pit_limiter, fuel_in_tank_bits, max_rpm, drs_allowed, actual_tyre_compound, ers_store_energy_bits);
    let d = status_packet_bytes(header, player_index, 55, e);
    let b = HEADER_SIZE + player_index * CAR_STATUS_ENTRY_SIZE;
    assert(e.len() == 55);
    assert forall|k: int| 0 <= k < 55 implies #[trigger] d[b + k] == e[k] by {
        lemma_status_position(header, player_index, e, k);
    }
    lemma_status_position(header, player_index, e, 0);
    let fb = u32_le_bytes(fuel_in_tank_bits as int);
    let rb = u16_le_bytes(max_rpm as int);
    let eb = u32_le_bytes(ers_store_energy_bits as int);
    assert(e =~= zeros(4) + seq![pit_limiter] + fb + zeros(8) + rb + zeros(3) + seq![drs_allowed] + zeros(2) + seq![actual_tyre_compound] + zeros(11) + eb + zeros(14));
    assert forall|k: int| (0 <= k < 4 || 9 <= k < 17 || 19 <= k < 22 || 23 <= k < 25 || 26 <= k < 37 || 41 <= k < 55) implies #[trigger] e[k] == 0u8 by {
    }
    assert(e[4] == pit_limiter && e[22] == drs_allowed && e[25] == actual_tyre_compound);
    assert(e[5] == fb[0] && e[6] == fb[1] && e[7] == fb[2] && e[8] == fb[3]);
    assert(e[17] == rb[0] && e[18] == rb[1]);
    assert(e[37] == eb[0] && e[38] == eb[1] && e[39] == eb[2] && e[40] == eb[3]);
    assert(d[b + 5] == fb[0] && d[b + 6] == fb[1] && d[b + 7] == fb[2] && d[b + 8] == fb[3]);
    lemma_le_u32_of(d, b + 5, fuel_in_tank_bits);
    assert(d[b + 17] == rb[0] && d[b + 18] == rb[1]);
    lemma_le_u16_of(d, b + 17, max_rpm);
    assert(d[b + 37] == eb[0] && d[b + 38] == eb[1] && d[b + 39] == eb[2] && d[b + 40] == eb[3]);
    lemma_le_u32_of(d, b + 37, ers_store_energy_bits);
    assert(d[b + 13] == 0 && d[b + 14] == 0 && d[b + 15] == 0 && d[b + 16] == 0);
    assert(d[b + 29] == 0 && d[b + 30] == 0 && d[b + 31] == 0 && d[b + 32] == 0);
    assert(d[b + 33] == 0 && d[b + 34] == 0 && d[b + 35] == 0 && d[b + 36] == 0);
    assert(d[b + 42] == 0 && d[b + 43] == 0 && d[b + 44] == 0 && d[b + 45] == 0);
    assert(d[b + 46] == 0 && d[b + 47] == 0 && d[b + 48] == 0 && d[b + 49] == 0);
    assert(d[b + 50] == 0 && d[b + 51] == 0 && d[b + 52] == 0 && d[b + 53] == 0);
    assert(d[b] == 0 && d[b + 1] == 0 && d[b + 27] == 0 && d[b + 41] == 0);
    assert(le_u32(d, b + 13) == 0);
    assert(le_u32(d, b + 29) == 0);
    assert(le_u32(d, b + 33) == 0);
    assert(le_u32(d, b + 42) == 0);
    assert(le_u32(d, b + 46) == 0);
    assert(le_u32(d, b + 50) == 0);
}

/// Pairing: once a Car Telemetry packet for the player has been accepted, an
/// accepted Car Status packet emits a frame made of that telemetry entry,
/// the new status entry and the session known before both.
pub proof fn lemma_telemetry_then_status_emits(
    d1: Seq<u8>,
    d2: Seq<u8>,
    s0: F125State,
    s1: F125State,
    s2: F125State,
    r1: Result<Option<F125Frame>, TelemetryError>,
    r2: Result<Option<F125Frame>, TelemetryError>,
    st1: Result<CarStatusData, TelemetryError>,
    st2: Result<CarStatusData, TelemetryError>,
)
    requires
        accepts(d1, s0, s1, r1, st1),
        accepts(d2, s1, s2, r2, st2),
        header_of(d1).packet_id == PACKET_ID_CAR_TELEMETRY,
        r1 is Ok,
        header_of(d2).packet_id == PACKET_ID_CAR_STATUS,
        st2 is Ok,
    ensures
        s1.latest_telemetry is Some,
        r2 == Ok::<Option<F125Frame>, TelemetryError>(Some(F125Frame {
            telemetry: s1.latest_telemetry->0,
            status: st2->Ok_0,
            session: s0.session,
        })),
{
}

/// A session packet never emits a frame, and an accepted one replaces only
/// the session.
pub proof fn lemma_session_emits_nothing(
    d: Seq<u8>,
    s0: F125State,
    s1: F125State,
    r: Result<Option<F125Frame>, TelemetryError>,
    st: Result<CarStatusData, TelemetryError>,
)
    requires
        accepts(d, s0, s1, r, st),
        header_of(d).packet_id == PACKET_ID_SESSION,
    ensures
        r != Ok::<Option<F125Frame>, TelemetryError>(None) ==> r is Err && s1 == s0,
        r is Ok ==> s1.latest_telemetry == s0.latest_telemetry && s1.latest_status == s0.latest_status,
{
}

} // verus!
