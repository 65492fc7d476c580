//! Gravel, through the SimHub JSON UDP bridge (port 5555).
use vstd::prelude::*;

verus! {

pub const SIMHUB_PORT: u16 = 5555;
pub const MAX_PACKET_SIZE: usize = 4096;
pub const DEFAULT_UPDATE_RATE_MS: u64 = 16;

/// Gravel adapter configuration.
#[derive(Debug, Clone, Copy, PartialEq, Eq, Structural)]
pub struct GravelAdapter {
    pub bind_port: u16,
    pub update_rate_ms: u64,
}

impl GravelAdapter {
    pub fn new() -> (r: Self)
        ensures
            r.bind_port == SIMHUB_PORT,
            r.update_rate_ms == DEFAULT_UPDATE_RATE_MS,
    {
        GravelAdapter { bind_port: SIMHUB_PORT, update_rate_ms: DEFAULT_UPDATE_RATE_MS }
    }

    pub fn game_id(&self) -> (r: &'static str)
        ensures
            r@ == "gravel"@,
    {
        "gravel"
    }

    pub fn expected_update_rate_ms(&self) -> (r: u64)
        ensures
            r == self.update_rate_ms,
    {
        self.update_rate_ms
    }

    /// The game is never reported as running.
    pub fn is_game_running(&self) -> (r: bool)
        ensures
            !r,
    {
        false
    }
}

impl Default for GravelAdapter {
    fn default() -> (r: Self)
        ensures
            r.bind_port == SIMHUB_PORT,
            r.update_rate_ms == DEFAULT_UPDATE_RATE_MS,
    {
        GravelAdapter::new()
    }
}

} // verus!
