//! F1 (bridge) telemetry over Codemasters custom UDP streams (port 20777): the
//! channel layout of a built-in mode or of an XML definition, decoded by
//! [`crate::codemasters_udp`].
use crate::codemasters_udp::{
    bytes_for, last_fourcc, layout_for_mode, opt_view, parse_custom_udp_xml, CustomUdpSpec,
    DecodedCodemastersPacket, custom_udp_layout, spec_result_view,
};
use crate::bytes::le_u32;
use crate::error::TelemetryError;
use crate::settings::{
    heartbeat_fresh, is_recent_packet, mode_setting, path_of, path_setting, positive_u16_setting,
    positive_u64_setting, setting_in_range, text_of,
};
use vstd::prelude::*;
use vstd::string::{StringExecFns, StringSliceAdditionalSpecFns};

verus! {

pub const DEFAULT_F1_PORT: u16 = 20777;
pub const DEFAULT_F1_MODE: u8 = 3;
pub const DEFAULT_F1_HEARTBEAT_TIMEOUT_MS: u64 = 1500;
pub const MAX_PACKET_SIZE: usize = 4096;
pub const DEFAULT_UPDATE_RATE_MS: u64 = 16;

/// F1 (bridge) adapter configuration.
#[derive(Debug, Clone)]
pub struct F1Adapter {
    pub bind_port: u16,
    pub mode: u8,
    /// Path of an XML channel definition that replaces the mode's layout.
    pub custom_udp_xml: Option<String>,
    pub update_rate_ms: u64,
    pub heartbeat_timeout_ms: u64,
}

impl F1Adapter {
    /// Configuration from the settings `OPENRACING_F1_UDP_PORT`,
    /// `OPENRACING_F1_UDP_MODE`, `OPENRACING_F1_CUSTOM_UDP_XML` and
    /// `OPENRACING_F1_HEARTBEAT_TIMEOUT_MS`: a positive port and timeout, a
    /// mode of at most 3 and a non-blank path override the defaults.
    pub fn new(
        port_setting: Option<&str>,
        mode_text: Option<&str>,
        xml_setting: Option<&str>,
        heartbeat_setting: Option<&str>,
    ) -> (r: Self)
        ensures
            r.bind_port as int == setting_in_range(text_of(port_setting), u16::MAX as int, 1, u16::MAX as int, DEFAULT_F1_PORT as int),
            r.mode as int == setting_in_range(text_of(mode_text), u8::MAX as int, 0, 3, DEFAULT_F1_MODE as int),
            opt_view(r.custom_udp_xml) == path_of(xml_setting),
            r.heartbeat_timeout_ms as int == setting_in_range(text_of(heartbeat_setting), u64::MAX as int, 1, u64::MAX as int, DEFAULT_F1_HEARTBEAT_TIMEOUT_MS as int),
            r.update_rate_ms == DEFAULT_UPDATE_RATE_MS,
    {
        F1Adapter {
            bind_port: positive_u16_setting(port_setting, DEFAULT_F1_PORT),
            mode: mode_setting(mode_text, DEFAULT_F1_MODE),
            custom_udp_xml: path_setting(xml_setting),
            update_rate_ms: DEFAULT_UPDATE_RATE_MS,
            heartbeat_timeout_ms: positive_u64_setting(heartbeat_setting, DEFAULT_F1_HEARTBEAT_TIMEOUT_MS),
        }
    }

    /// Override the UDP bind port.
    pub fn with_port(self, bind_port: u16) -> (r: Self)
        ensures
            r.bind_port == bind_port,
            r.mode == self.mode,
            opt_view(r.custom_udp_xml) == opt_view(self.custom_udp_xml),
            r.update_rate_ms == self.update_rate_ms,
            r.heartbeat_timeout_ms == self.heartbeat_timeout_ms,
    {
        F1Adapter { bind_port, ..self }
    }

    /// Override the built-in mode.
    pub fn with_mode(self, mode: u8) -> (r: Self)
        ensures
            r.bind_port == self.bind_port,
            r.mode == mode,
            opt_view(r.custom_udp_xml) == opt_view(self.custom_udp_xml),
            r.update_rate_ms == self.update_rate_ms,
            r.heartbeat_timeout_ms == self.heartbeat_timeout_ms,
    {
        F1Adapter { mode, ..self }
    }

    /// Use the XML channel definition at `path`.
    pub fn with_custom_udp_xml(self, path: &str) -> (r: Self)
        ensures
            r.bind_port == self.bind_port,
            r.mode == self.mode,
            opt_view(r.custom_udp_xml) == Some(path@),
            r.update_rate_ms == self.update_rate_ms,
            r.heartbeat_timeout_ms == self.heartbeat_timeout_ms,
    {
        F1Adapter { custom_udp_xml: Some(String::from_str(path)), ..self }
    }

    pub fn game_id(&self) -> (r: &'static str)
        ensures
            r@ == "f1"@,
    {
        "f1"
    }

    pub fn expected_update_rate_ms(&self) -> (r: u64)
        ensures
            r == self.update_rate_ms,
    {
        self.update_rate_ms
    }

    /// Whether a packet received at `last_packet_ns` (0 = never) is recent
    /// at `now_ns`.
    pub fn is_recent_packet(&self, last_packet_ns: u64, now_ns: u64) -> (r: bool)
        ensures
            r == heartbeat_fresh(last_packet_ns, now_ns, self.heartbeat_timeout_ms),
    {
        is_recent_packet(last_packet_ns, now_ns, self.heartbeat_timeout_ms)
    }

    /// The channel layout in use: with an XML definition configured, the one
    /// `xml_document` (the text read from its path, `None` when it could not
    /// be read) defines; otherwise the mode's.
    pub fn load_spec(&self, xml_document: Option<&str>) -> (r: Result<CustomUdpSpec, TelemetryError>)
        ensures
            self.custom_udp_xml is None ==> (r matches Ok(s) && s@ == layout_for_mode(self.mode)),
            self.custom_udp_xml is Some && xml_document is None ==> r == Err::<CustomUdpSpec, TelemetryError>(
                TelemetryError::SpecUnavailable,
            ),
            self.custom_udp_xml is Some && xml_document is Some ==> spec_result_view(r) == custom_udp_layout(
                xml_document->0.spec_bytes(),
            ),
    {
        match &self.custom_udp_xml {
            Some(_) => match xml_document {
                Some(text) => parse_custom_udp_xml(text),
                None => Err(TelemetryError::SpecUnavailable),
            },
            None => Ok(CustomUdpSpec::from_mode(self.mode)),
        }
    }

    /// Decode a packet with the channel layout `spec` in use: too short
    /// under 4 bytes per channel, otherwise each channel's word and the last
    /// FourCC text.
    pub fn normalize(&self, spec: &CustomUdpSpec, raw: &[u8]) -> (r: Result<DecodedCodemastersPacket, TelemetryError>)
        ensures
            raw@.len() < 4 * spec@.len() ==> r == Err::<DecodedCodemastersPacket, TelemetryError>(
                TelemetryError::TooShort { needed: bytes_for(spec@.len() as int), actual: raw@.len() as usize },
            ),
            raw@.len() >= 4 * spec@.len() ==> (r matches Ok(p) && p.words@.len() == spec@.len()
                && (forall|i: int| 0 <= i < spec@.len() ==> #[trigger] p.words@[i] == le_u32(raw@, 4 * i) as u32)
                && opt_view(p.fourcc) == last_fourcc(spec@, raw@, spec@.len() as int)),
    {
        spec.decode(raw)
    }
}

} // verus!
