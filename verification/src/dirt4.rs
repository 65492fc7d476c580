//! DiRT 4 telemetry over the Codemasters Mode 1 UDP format (port 20777),
//! parsed by [`crate::codemasters_shared`].
use crate::codemasters_shared::{mode1_result, parse_codemasters_mode1_common, Mode1Fields};
use crate::error::TelemetryError;
use crate::settings::{heartbeat_fresh, is_recent_packet, positive_u16_setting, positive_u64_setting, setting_in_range, text_of};
use vstd::prelude::*;

verus! {

pub const DEFAULT_PORT: u16 = 20777;
pub const MAX_PACKET_SIZE: usize = 2048;
pub const DEFAULT_HEARTBEAT_TIMEOUT_MS: u64 = 1500;
pub const DEFAULT_UPDATE_RATE_MS: u64 = 16;

/// DiRT 4 adapter configuration.
#[derive(Debug, Clone, Copy, PartialEq, Eq, Structural)]
pub struct Dirt4Adapter {
    pub bind_port: u16,
    pub update_rate_ms: u64,
    pub heartbeat_timeout_ms: u64,
}

impl Dirt4Adapter {
    /// Configuration from the port and heartbeat-timeout settings (the
    /// values of `OPENRACING_DIRT4_UDP_PORT` and `OPENRACING_DIRT4_HEARTBEAT_TIMEOUT_MS`): positive
    /// values override the defaults.
    pub fn new(port_setting: Option<&str>, heartbeat_setting: Option<&str>) -> (r: Self)
        ensures
            r.bind_port as int == setting_in_range(text_of(port_setting), u16::MAX as int, 1, u16::MAX as int, DEFAULT_PORT as int),
            r.heartbeat_timeout_ms as int == setting_in_range(text_of(heartbeat_setting), u64::MAX as int, 1, u64::MAX as int, DEFAULT_HEARTBEAT_TIMEOUT_MS as int),
            r.update_rate_ms == DEFAULT_UPDATE_RATE_MS,
    {
        Dirt4Adapter {
            bind_port: positive_u16_setting(port_setting, DEFAULT_PORT),
            update_rate_ms: DEFAULT_UPDATE_RATE_MS,
            heartbeat_timeout_ms: positive_u64_setting(heartbeat_setting, DEFAULT_HEARTBEAT_TIMEOUT_MS),
        }
    }

    /// Override the UDP bind port.
    pub fn with_port(self, port: u16) -> (r: Self)
        ensures
            r == (Dirt4Adapter { bind_port: port, ..self }),
    {
        Dirt4Adapter { bind_port: port, ..self }
    }

    pub fn game_id(&self) -> (r: &'static str)
        ensures
            r@ == "dirt4"@,
    {
        "dirt4"
    }

    pub fn expected_update_rate_ms(&self) -> (r: u64)
        ensures
            r == self.update_rate_ms,
    {
        self.update_rate_ms
    }

    /// Whether a packet received at `last_packet_ns` (0 = never) is recent
    /// at `now_ns`.
    pub fn is_recent_packet(&self, last_packet_ns: u64, now_ns: u64) -> (r: bool)
        ensures
            r == heartbeat_fresh(last_packet_ns, now_ns, self.heartbeat_timeout_ms),
    {
        is_recent_packet(last_packet_ns, now_ns, self.heartbeat_timeout_ms)
    }

    pub fn normalize(&self, raw: &[u8]) -> (r: Result<Mode1Fields, TelemetryError>)
        ensures
            r == mode1_result(raw@),
    {
        parse_codemasters_mode1_common(raw)
    }
}

} // verus!
