//! Assetto Corsa Rally telemetry discovery: registration probe packets and
//! the diagnostic summary of captured datagrams.
use crate::acc::{build_register_packet as build_acc_register_packet, interval_of, register_packet, encodable, first_string_error};
use crate::acc_reader::{read_acc_string, sp_bool, sp_i32, sp_string, sp_u8, string_from_utf8, PacketReader};
use crate::error::TelemetryError;
use vstd::prelude::*;
use vstd::string::{StrSliceExecFns, StringExecFns};
use vstd::utf8::{decode_utf8, encode_utf8, is_ascii_chars};

verus! {

pub const MSG_REGISTRATION_RESULT: u8 = 1;
pub const DEFAULT_AC_RALLY_ENDPOINT_PORT: u16 = 9000;
pub const DEFAULT_AC_RALLY_PASSIVE_PORT: u16 = 9000;
pub const MAX_PACKET_SIZE: usize = 4096;
pub const DEFAULT_HANDSHAKE_TIMEOUT_MS: u64 = 400;
pub const DEFAULT_PASSIVE_PROBE_WINDOW_MS: u64 = 2000;
pub const DEFAULT_UPDATE_RATE_MS: u64 = 16;
/// Number of leading bytes shown in a hex preview.
pub const PREVIEW_BYTES: usize = 32;

/// Reply to the registration probe.
pub struct RegistrationResult {
    pub connection_id: i32,
    pub success: bool,
    pub readonly: bool,
    pub error: String,
    pub raw_size: usize,
}

/// What the registration probe observed.
pub enum HandshakeProbeOutcome {
    Registration(RegistrationResult),
    Response { message_type: u8, raw_size: usize },
    Timeout,
    Error { message: String },
}

impl HandshakeProbeOutcome {
    pub open spec fn size_of(&self) -> usize {
        match self {
            HandshakeProbeOutcome::Registration(r) => r.raw_size,
            HandshakeProbeOutcome::Response { raw_size, .. } => *raw_size,
            _ => 0,
        }
    }

    /// Size of the datagram the probe received, 0 when none was.
    pub fn raw_size(&self) -> (r: usize)
        ensures
            r == self.size_of(),
    {
        match self {
            HandshakeProbeOutcome::Registration(result) => result.raw_size,
            HandshakeProbeOutcome::Response { raw_size, .. } => *raw_size,
            HandshakeProbeOutcome::Timeout => 0,
            HandshakeProbeOutcome::Error { .. } => 0,
        }
    }
}

/// A registration reply: its type byte, then connection id, success and
/// read-only flags (non-zero meaning set) and an error string.
pub open spec fn sp_probe_registration(d: Seq<u8>) -> Result<(i32, bool, bool, Seq<char>), TelemetryError> {
    match sp_u8(d, 0) {
        Err(e) => Err(e),
        Ok((t, o0)) => if t != MSG_REGISTRATION_RESULT {
            Err(TelemetryError::UnexpectedMessageType(t))
        } else {
            match sp_i32(d, o0) {
                Err(e) => Err(e),
                Ok((id, o1)) => match sp_bool(d, o1) {
                    Err(e) => Err(e),
                    Ok((success, o2)) => match sp_bool(d, o2) {
                        Err(e) => Err(e),
                        Ok((readonly, o3)) => match sp_string(d, o3) {
                            Err(e) => Err(e),
                            Ok((error, _o4)) => Ok((id, success, readonly, error)),
                        },
                    },
                },
            }
        },
    }
}

/// Decodes a registration reply.
pub fn parse_registration_result(data: &[u8]) -> (r: Result<RegistrationResult, TelemetryError>)
    ensures
        match sp_probe_registration(data@) {
            Ok((id, success, readonly, error)) => r matches Ok(v) && v.connection_id == id
                && v.success == success && v.readonly == readonly && v.error@ == error
                && v.raw_size == data@.len(),
            Err(e) => r matches Err(x) && x == e,
        },
{
    let mut reader = PacketReader::new(data);
    let message_type = reader.read_u8()?;
    if message_type != MSG_REGISTRATION_RESULT {
        return Err(TelemetryError::UnexpectedMessageType(message_type));
    }
    let connection_id = reader.read_i32_le()?;
    let success = reader.read_bool_u8()?;
    let readonly = reader.read_bool_u8()?;
    let error = read_acc_string(&mut reader)?;
    Ok(RegistrationResult { connection_id, success, readonly, error, raw_size: data.len() })
}

/// Encodes the registration probe for an update period in milliseconds.
pub fn build_register_packet(
    display_name: &str,
    connection_password: &str,
    update_rate_ms: u64,
    command_password: &str,
) -> (r: Result<Vec<u8>, TelemetryError>)
    ensures
        !(encodable(display_name@) && encodable(connection_password@) && encodable(
            command_password@,
        )) ==> r == Err::<Vec<u8>, TelemetryError>(
            first_string_error(display_name@, connection_password@, command_password@),
        ),
        encodable(display_name@) && encodable(connection_password@) && encodable(
            command_password@,
        ) ==> (r matches Ok(v) && v@ == register_packet(
            display_name@,
            connection_password@,
            interval_of(update_rate_ms),
            command_password@,
        )),
{
    let interval_ms = crate::acc::duration_to_interval_ms(update_rate_ms);
    build_acc_register_packet(display_name, connection_password, interval_ms, command_password)
}

/// The lower-case hex digit of a value below 16, `'0'` otherwise.
pub open spec fn hex_digit(v: u8) -> char {
    if v <= 9 {
        (48 + v) as char
    } else if v <= 15 {
        (97 + v - 10) as char
    } else {
        '0'
    }
}

/// Maps a nibble to its lower-case hex digit.
pub fn nibble_to_hex(value: u8) -> (r: char)
    ensures
        r == hex_digit(value),
{
    if value <= 9 {
        (48 + value) as char
    } else if value <= 15 {
        (97 + (value - 10)) as char
    } else {
        '0'
    }
}

/// Byte code of a hex digit.
fn hex_byte(value: u8) -> (r: u8)
    requires
        value < 16,
    ensures
        r as char == hex_digit(value),
        r < 128,
{
    if value <= 9 {
        48 + value
    } else {
        97 + (value - 10)
    }
}

/// Hex rendering of the first `max_bytes` bytes: two lower-case digits per
/// byte, high nibble first.
pub open spec fn hex_preview_chars(data: Seq<u8>, max_bytes: int) -> Seq<char> {
    let n = if data.len() < max_bytes { data.len() as int } else { max_bytes };
    Seq::new(
        (2 * n) as nat,
        |i: int|
            if i % 2 == 0 {
                hex_digit(data[i / 2] / 16)
            } else {
                hex_digit(data[i / 2] % 16)
            },
    )
}

/// Hex preview of the leading bytes of a datagram.
pub fn hex_preview(data: &[u8], max_bytes: usize) -> (r: String)
    ensures
        r@ == hex_preview_chars(data@, max_bytes as int),
{
    let preview_len = if data.len() < max_bytes {
        data.len()
    } else {
        max_bytes
    };
    let ghost target = hex_preview_chars(data@, max_bytes as int);
    let mut out: Vec<u8> = Vec::new();
    let mut i: usize = 0;
    while i < preview_len
        invariant
            i <= preview_len,
            preview_len <= data@.len(),
            preview_len <= max_bytes,
            target.len() == 2 * preview_len,
            target == hex_preview_chars(data@, max_bytes as int),
            out@.len() == 2 * i,
            forall|j: int| 0 <= j < 2 * i ==> (#[trigger] out@[j]) as char == target[j] && out@[j]
                < 128,
        decreases preview_len - i,
    {
        let byte = data[i];
        out.push(hex_byte(byte / 16));
        out.push(hex_byte(byte % 16));
        proof {
            assert forall|j: int| 0 <= j < 2 * (i + 1) implies (#[trigger] out@[j]) as char
                == target[j] && out@[j] < 128 by {
                if j >= 2 * i {
                    assert(j / 2 == i as int);
                }
            }
        }
        i = i + 1;
    }
    let ghost chars = target;
    proof {
        assert(is_ascii_chars(chars)) by {
            assert forall|j: int| 0 <= j < chars.len() implies '\0' <= #[trigger] chars[j]
                <= '\u{7f}' by {
                assert(out@[j] as char == chars[j]);
            }
        }
        vstd::utf8::is_ascii_chars_encode_utf8(chars);
        assert(encode_utf8(chars) =~= out@);
        vstd::utf8::encode_utf8_valid_utf8(chars);
        vstd::utf8::encode_utf8_decode_utf8(chars);
    }
    match string_from_utf8(out) {
        Some(s) => s,
        None => String::new(),
    }
}

/// A length saturated to `i32::MAX`.
pub fn capped_i32(value: usize) -> (r: i32)
    ensures
        r as int == if value > i32::MAX { i32::MAX as int } else { value as int },
{
    if value > i32::MAX as usize {
        i32::MAX
    } else {
        value as i32
    }
}

/// Diagnostic summary of one captured datagram.
pub struct ProbeSummary {
    /// Datagram length, saturated to `i32::MAX`.
    pub raw_size: i32,
    /// Hex rendering of the first [`PREVIEW_BYTES`] bytes.
    pub raw_preview_hex: String,
    pub raw_first_byte: u8,
    /// The first [`PREVIEW_BYTES`] characters of the datagram read as
    /// text, when it is valid UTF-8.
    pub raw_utf8_preview: Option<String>,
}

/// The first `n` characters of `s` (all of them when it is shorter).
pub open spec fn first_chars(s: Seq<char>, n: int) -> Seq<char> {
    if s.len() <= n { s } else { s.subrange(0, n) }
}

/// Summarizes a captured datagram; empty datagrams are rejected.
pub fn normalize_probe_packet(raw: &[u8]) -> (r: Result<ProbeSummary, TelemetryError>)
    ensures
        raw@.len() == 0 ==> r == Err::<ProbeSummary, TelemetryError>(TelemetryError::EmptyPacket),
        raw@.len() > 0 ==> (r matches Ok(s) && s.raw_size as int == (if raw@.len() > i32::MAX {
            i32::MAX as int
        } else {
            raw@.len() as int
        }) && s.raw_preview_hex@ == hex_preview_chars(raw@, PREVIEW_BYTES as int)
            && s.raw_first_byte == raw@[0] && (s.raw_utf8_preview is Some <==> vstd::utf8::valid_utf8(
            raw@,
        )) && (s.raw_utf8_preview matches Some(t) ==> t@ == first_chars(decode_utf8(raw@), PREVIEW_BYTES as int))),
{
    if raw.len() == 0 {
        return Err(TelemetryError::EmptyPacket);
    }
    let preview = match string_from_utf8(vstd::slice::slice_to_vec(raw)) {
        Some(text) => {
            let n = text.as_str().unicode_len();
            let k = if n < PREVIEW_BYTES { n } else { PREVIEW_BYTES };
            Some(String::from_str(text.as_str().substring_char(0, k)))
        },
        None => None,
    };
    Ok(
        ProbeSummary {
            raw_size: capped_i32(raw.len()),
            raw_preview_hex: hex_preview(raw, PREVIEW_BYTES),
            raw_first_byte: raw[0],
            raw_utf8_preview: preview,
        },
    )
}


/// What the probe makes of a reply datagram: a registration result when it
/// decodes as one, otherwise a response of the type its first byte gives
/// (0 for an empty datagram).
pub open spec fn reply_is_registration(reply: Seq<u8>) -> bool {
    sp_probe_registration(reply) is Ok
}

/// The outcome of a probe that received `reply`.
pub fn outcome_of_reply(reply: &[u8]) -> (r: HandshakeProbeOutcome)
    ensures
        reply_is_registration(reply@) ==> (r matches HandshakeProbeOutcome::Registration(v)
            && sp_probe_registration(reply@) == Ok::<(i32, bool, bool, Seq<char>), TelemetryError>((v.connection_id, v.success, v.readonly, v.error@))
            && v.raw_size == reply@.len()),
        !reply_is_registration(reply@) ==> (r matches HandshakeProbeOutcome::Response { message_type, raw_size }
            && message_type == (if reply@.len() > 0 { reply@[0] } else { 0u8 })
            && raw_size == reply@.len()),
{
    match parse_registration_result(reply) {
        Ok(result) => HandshakeProbeOutcome::Registration(result),
        Err(_) => HandshakeProbeOutcome::Response {
            message_type: if reply.len() > 0 { reply[0] } else { 0 },
            raw_size: reply.len(),
        },
    }
}

/// The game counts as running when the probe got any reply.
pub fn handshake_detects_game(outcome: &HandshakeProbeOutcome) -> (r: bool)
    ensures
        r == (outcome is Registration || outcome is Response),
{
    match outcome {
        HandshakeProbeOutcome::Registration(_) => true,
        HandshakeProbeOutcome::Response { .. } => true,
        HandshakeProbeOutcome::Timeout => false,
        HandshakeProbeOutcome::Error { .. } => false,
    }
}

/// A value reported by a probe.
pub enum ProbeValue {
    Text(String),
    Flag(bool),
    Integer(i32),
}

pub enum ProbeValueModel {
    Text(Seq<char>),
    Flag(bool),
    Integer(int),
}

impl View for ProbeValue {
    type V = ProbeValueModel;

    open spec fn view(&self) -> ProbeValueModel {
        match self {
            ProbeValue::Text(s) => ProbeValueModel::Text(s@),
            ProbeValue::Flag(b) => ProbeValueModel::Flag(*b),
            ProbeValue::Integer(i) => ProbeValueModel::Integer(*i as int),
        }
    }
}

/// One named value of a probe report.
pub struct ProbeEntry {
    pub key: &'static str,
    pub value: ProbeValue,
}

pub open spec fn entries_view(v: Seq<ProbeEntry>) -> Seq<(Seq<char>, ProbeValueModel)> {
    v.map_values(|e: ProbeEntry| (e.key@, e.value@))
}

pub open spec fn text_entry(key: Seq<char>, value: Seq<char>) -> (Seq<char>, ProbeValueModel) {
    (key, ProbeValueModel::Text(value))
}

/// The report of the registration probe sent to `endpoint`.
pub open spec fn handshake_report_spec(outcome: HandshakeProbeOutcome, endpoint: Seq<char>) -> Seq<(Seq<char>, ProbeValueModel)> {
    seq![text_entry("probe_stage"@, "udp_handshake"@), text_entry("probe_endpoint"@, endpoint)] + match outcome {
        HandshakeProbeOutcome::Registration(r) => seq![
            text_entry("probe_status"@, "registration_result"@),
            ("registration_success"@, ProbeValueModel::Flag(r.success)),
            ("registration_readonly"@, ProbeValueModel::Flag(r.readonly)),
            ("registration_connection_id"@, ProbeValueModel::Integer(r.connection_id as int)),
            text_entry("registration_error"@, r.error@),
        ],
        HandshakeProbeOutcome::Response { message_type, raw_size } => seq![
            text_entry("probe_status"@, "unexpected_response"@),
            ("response_message_type"@, ProbeValueModel::Integer(message_type as int)),
            ("response_size"@, ProbeValueModel::Integer(if raw_size > i32::MAX { i32::MAX as int } else { raw_size as int })),
        ],
        HandshakeProbeOutcome::Timeout => seq![text_entry("probe_status"@, "timeout"@)],
        HandshakeProbeOutcome::Error { message } => seq![
            text_entry("probe_status"@, "error"@),
            text_entry("probe_error"@, message@),
        ],
    }
}

fn push_entry(v: &mut Vec<ProbeEntry>, key: &'static str, value: ProbeValue)
    ensures
        entries_view(final(v)@) == entries_view(old(v)@).push((key@, value@)),
{
    let ghost kv = (key@, value@);
    v.push(ProbeEntry { key, value });
    assert(entries_view(v@) =~= entries_view(old(v)@).push(kv));
}

fn text(s: &str) -> (r: ProbeValue)
    ensures
        r@ == ProbeValueModel::Text(s@),
{
    ProbeValue::Text(String::from_str(s))
}

/// The report of the registration probe sent to `endpoint`.
pub fn telemetry_from_handshake(outcome: &HandshakeProbeOutcome, endpoint: &str) -> (r: Vec<ProbeEntry>)
    ensures
        entries_view(r@) == handshake_report_spec(*outcome, endpoint@),
{
    let mut v: Vec<ProbeEntry> = Vec::new();
    assert(entries_view(v@) =~= Seq::<(Seq<char>, ProbeValueModel)>::empty());
    push_entry(&mut v, "probe_stage", text("udp_handshake"));
    push_entry(&mut v, "probe_endpoint", text(endpoint));
    let ghost head = entries_view(v@);
    match outcome {
        HandshakeProbeOutcome::Registration(result) => {
            push_entry(&mut v, "probe_status", text("registration_result"));
            push_entry(&mut v, "registration_success", ProbeValue::Flag(result.success));
            push_entry(&mut v, "registration_readonly", ProbeValue::Flag(result.readonly));
            push_entry(&mut v, "registration_connection_id", ProbeValue::Integer(result.connection_id));
            push_entry(&mut v, "registration_error", text(result.error.as_str()));
        },
        HandshakeProbeOutcome::Response { message_type, raw_size } => {
            push_entry(&mut v, "probe_status", text("unexpected_response"));
            push_entry(&mut v, "response_message_type", ProbeValue::Integer(*message_type as i32));
            push_entry(&mut v, "response_size", ProbeValue::Integer(capped_i32(*raw_size)));
        },
        HandshakeProbeOutcome::Timeout => {
            push_entry(&mut v, "probe_status", text("timeout"));
        },
        HandshakeProbeOutcome::Error { message } => {
            push_entry(&mut v, "probe_status", text("error"));
            push_entry(&mut v, "probe_error", text(message.as_str()));
        },
    }
    assert(entries_view(v@) =~= handshake_report_spec(*outcome, endpoint@));
    v
}

/// How long the passive probe waits for the next datagram: what remains of
/// its window, at most four update periods.
pub fn passive_wait_ms(remaining_ms: u64, update_rate_ms: u64) -> (r: u64)
    ensures
        r as int == if remaining_ms as int <= 4 * update_rate_ms as int { remaining_ms as int } else { 4 * update_rate_ms as int },
{
    if update_rate_ms > u64::MAX / 4 || remaining_ms <= update_rate_ms * 4 {
        remaining_ms
    } else {
        update_rate_ms * 4
    }
}

/// What one wait of the passive probe brought: a datagram of `len` bytes, a
/// receive error, or nothing before the wait ran out.
pub enum PassiveProbeEvent {
    Datagram { len: usize },
    ReceiveError,
    Quiet,
}

/// A status the passive probe reports.
#[derive(Debug, Clone, Copy, PartialEq, Eq, Structural)]
pub enum PassiveProbeReport {
    PacketReceived,
    ReceiveError,
    NoPackets,
}

impl PassiveProbeReport {
    /// The status text the probe reports it under.
    pub fn label(&self) -> (r: &'static str)
        ensures
            r@ == match *self {
                PassiveProbeReport::PacketReceived => "packet_received"@,
                PassiveProbeReport::ReceiveError => "receive_error"@,
                PassiveProbeReport::NoPackets => "no_packets"@,
            },
    {
        match self {
            PassiveProbeReport::PacketReceived => "packet_received",
            PassiveProbeReport::ReceiveError => "receive_error",
            PassiveProbeReport::NoPackets => "no_packets",
        }
    }
}

/// One wait of the passive probe: every datagram counts as seen (the count
/// saturates), a non-empty one is reported as received, an empty one is
/// dropped, a receive error is reported, and a quiet wait reports nothing.
pub fn passive_probe_step(seen: u64, event: &PassiveProbeEvent) -> (r: (u64, Option<PassiveProbeReport>))
    ensures
        r.0 == match *event {
            PassiveProbeEvent::Datagram { .. } => if seen == u64::MAX { seen } else { (seen + 1) as u64 },
            _ => seen,
        },
        r.1 == match *event {
            PassiveProbeEvent::Datagram { len } => if len > 0 {
                Some(PassiveProbeReport::PacketReceived)
            } else {
                None::<PassiveProbeReport>
            },
            PassiveProbeEvent::ReceiveError => Some(PassiveProbeReport::ReceiveError),
            PassiveProbeEvent::Quiet => None::<PassiveProbeReport>,
        },
{
    match event {
        PassiveProbeEvent::Datagram { len } => {
            let next = seen.saturating_add(1);
            if *len > 0 {
                (next, Some(PassiveProbeReport::PacketReceived))
            } else {
                (next, None)
            }
        },
        PassiveProbeEvent::ReceiveError => (seen, Some(PassiveProbeReport::ReceiveError)),
        PassiveProbeEvent::Quiet => (seen, None),
    }
}

/// The report at the end of the probe window: `NoPackets` when no datagram
/// was seen, nothing otherwise.
pub fn passive_probe_close(seen: u64) -> (r: Option<PassiveProbeReport>)
    ensures
        r == if seen == 0 { Some(PassiveProbeReport::NoPackets) } else { None::<PassiveProbeReport> },
{
    if seen == 0 {
        Some(PassiveProbeReport::NoPackets)
    } else {
        None
    }
}

} // verus!
