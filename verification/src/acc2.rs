//! Assetto Corsa Competizione 2: no public telemetry protocol is documented, so
//! the adapter only identifies the game.
use vstd::prelude::*;

verus! {

/// Update rate of an adapter that expects no data.
pub const UPDATE_RATE_MS: u64 = 1000;

/// ACC2 adapter.
#[derive(Debug, Clone, Copy, PartialEq, Eq, Structural)]
pub struct ACC2Adapter;

impl ACC2Adapter {
    pub fn new() -> (r: Self) {
        ACC2Adapter
    }

    pub fn game_id(&self) -> (r: &'static str)
        ensures
            r@ == "acc2"@,
    {
        "acc2"
    }

    pub fn expected_update_rate_ms(&self) -> (r: u64)
        ensures
            r == UPDATE_RATE_MS,
    {
        UPDATE_RATE_MS
    }

    /// The game is never reported as running.
    pub fn is_game_running(&self) -> (r: bool)
        ensures
            !r,
    {
        false
    }
}

} // verus!
