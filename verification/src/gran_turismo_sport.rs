//! Gran Turismo Sport: the SimulatorInterface packets of Gran Turismo 7
//! (Salsa20-encrypted, 296 bytes), received on port 33340, with `"A"`
//! heartbeats sent to the console on port 33339.
use crate::bytes::le_u32;
use crate::error::TelemetryError;
use crate::gran_turismo_7::{decrypt_and_parse, decrypted_packet, fields_of, Gt7Fields, MAGIC, PACKET_SIZE};
use vstd::prelude::*;

verus! {

/// Port on which GT Sport sends telemetry to the host.
pub const GTS_RECV_PORT: u16 = 33340;
/// Port on the console to which heartbeats go.
pub const GTS_SEND_PORT: u16 = 33339;
pub const DEFAULT_UPDATE_RATE_MS: u64 = 17;

/// Gran Turismo Sport adapter configuration.
#[derive(Debug, Clone, Copy, PartialEq, Eq, Structural)]
pub struct GranTurismo7SportsAdapter {
    pub recv_port: u16,
    pub update_rate_ms: u64,
}

impl GranTurismo7SportsAdapter {
    pub fn new() -> (r: Self)
        ensures
            r.recv_port == GTS_RECV_PORT,
            r.update_rate_ms == DEFAULT_UPDATE_RATE_MS,
    {
        GranTurismo7SportsAdapter { recv_port: GTS_RECV_PORT, update_rate_ms: DEFAULT_UPDATE_RATE_MS }
    }

    /// Override the receive port.
    pub fn with_port(self, port: u16) -> (r: Self)
        ensures
            r == (GranTurismo7SportsAdapter { recv_port: port, ..self }),
    {
        GranTurismo7SportsAdapter { recv_port: port, ..self }
    }

    pub fn game_id(&self) -> (r: &'static str)
        ensures
            r@ == "gran_turismo_sport"@,
    {
        "gran_turismo_sport"
    }

    pub fn expected_update_rate_ms(&self) -> (r: u64)
        ensures
            r == self.update_rate_ms,
    {
        self.update_rate_ms
    }

    /// The game runs on a console; it is never detected locally.
    pub fn is_game_running(&self) -> (r: bool)
        ensures
            !r,
    {
        false
    }

    pub fn normalize(&self, raw: &[u8]) -> (r: Result<Gt7Fields, TelemetryError>)
        ensures
            raw@.len() < PACKET_SIZE ==> r == Err::<Gt7Fields, TelemetryError>(
                TelemetryError::TooShort { needed: PACKET_SIZE, actual: raw@.len() as usize },
            ),
            raw@.len() >= PACKET_SIZE && le_u32(decrypted_packet(raw@), 0) != MAGIC ==> r == Err::<
                Gt7Fields,
                TelemetryError,
            >(TelemetryError::BadMagic),
            raw@.len() >= PACKET_SIZE && le_u32(decrypted_packet(raw@), 0) == MAGIC ==> r == Ok::<
                Gt7Fields,
                TelemetryError,
            >(fields_of(decrypted_packet(raw@))),
    {
        decrypt_and_parse(raw)
    }
}

impl Default for GranTurismo7SportsAdapter {
    fn default() -> (r: Self)
        ensures
            r.recv_port == GTS_RECV_PORT,
            r.update_rate_ms == DEFAULT_UPDATE_RATE_MS,
    {
        GranTurismo7SportsAdapter::new()
    }
}

} // verus!
