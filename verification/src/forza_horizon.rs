//! Forza Horizon 4 and 5: the Forza "Data Out" protocol, parsed by
//! [`crate::forza`], on each game's own default port (FH4 12350, FH5 5300).
use crate::error::TelemetryError;
use crate::forza::{forza_result, parse_forza_packet, ForzaTelemetry};
use vstd::prelude::*;

verus! {

pub const DEFAULT_FH4_PORT: u16 = 12350;
pub const DEFAULT_FH5_PORT: u16 = 5300;
pub const MAX_PACKET_SIZE: usize = 512;
pub const DEFAULT_UPDATE_RATE_MS: u64 = 16;

/// The configuration shared by both Forza Horizon adapters.
#[derive(Debug, Clone, Copy)]
pub struct ForzaHorizonAdapter {
    pub game_id: &'static str,
    pub bind_port: u16,
    pub update_rate_ms: u64,
}

impl ForzaHorizonAdapter {
    pub fn new(game_id: &'static str, default_port: u16) -> (r: Self)
        ensures
            r.game_id == game_id,
            r.bind_port == default_port,
            r.update_rate_ms == DEFAULT_UPDATE_RATE_MS,
    {
        ForzaHorizonAdapter { game_id, bind_port: default_port, update_rate_ms: DEFAULT_UPDATE_RATE_MS }
    }

    pub fn game_id(&self) -> (r: &'static str)
        ensures
            r == self.game_id,
    {
        self.game_id
    }

    pub fn expected_update_rate_ms(&self) -> (r: u64)
        ensures
            r == self.update_rate_ms,
    {
        self.update_rate_ms
    }

    /// The adapter does not detect the game process.
    pub fn is_game_running(&self) -> (r: bool)
        ensures
            !r,
    {
        false
    }

    pub fn normalize(&self, raw: &[u8]) -> (r: Result<ForzaTelemetry, TelemetryError>)
        ensures
            r == forza_result(raw@),
    {
        parse_forza_packet(raw)
    }
}

/// Forza Horizon 4 adapter (port 12350).
#[derive(Debug, Clone, Copy)]
pub struct ForzaHorizon4Adapter(pub ForzaHorizonAdapter);

impl ForzaHorizon4Adapter {
    pub fn new() -> (r: Self)
        ensures
            r.0.game_id@ == "forza_horizon_4"@,
            r.0.bind_port == DEFAULT_FH4_PORT,
            r.0.update_rate_ms == DEFAULT_UPDATE_RATE_MS,
    {
        ForzaHorizon4Adapter(ForzaHorizonAdapter::new("forza_horizon_4", DEFAULT_FH4_PORT))
    }

    pub fn game_id(&self) -> (r: &'static str)
        ensures
            r == self.0.game_id,
    {
        self.0.game_id()
    }

    pub fn expected_update_rate_ms(&self) -> (r: u64)
        ensures
            r == self.0.update_rate_ms,
    {
        self.0.expected_update_rate_ms()
    }

    pub fn normalize(&self, raw: &[u8]) -> (r: Result<ForzaTelemetry, TelemetryError>)
        ensures
            r == forza_result(raw@),
    {
        self.0.normalize(raw)
    }
}

/// Forza Horizon 5 adapter (port 5300).
#[derive(Debug, Clone, Copy)]
pub struct ForzaHorizon5Adapter(pub ForzaHorizonAdapter);

impl ForzaHorizon5Adapter {
    pub fn new() -> (r: Self)
        ensures
            r.0.game_id@ == "forza_horizon_5"@,
            r.0.bind_port == DEFAULT_FH5_PORT,
            r.0.update_rate_ms == DEFAULT_UPDATE_RATE_MS,
    {
        ForzaHorizon5Adapter(ForzaHorizonAdapter::new("forza_horizon_5", DEFAULT_FH5_PORT))
    }

    pub fn game_id(&self) -> (r: &'static str)
        ensures
            r == self.0.game_id,
    {
        self.0.game_id()
    }

    pub fn expected_update_rate_ms(&self) -> (r: u64)
        ensures
            r == self.0.update_rate_ms,
    {
        self.0.expected_update_rate_ms()
    }

    pub fn normalize(&self, raw: &[u8]) -> (r: Result<ForzaTelemetry, TelemetryError>)
        ensures
            r == forza_result(raw@),
    {
        self.0.normalize(raw)
    }
}

} // verus!
