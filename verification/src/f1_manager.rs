//! F1 Manager (2022 to 2024): a management title without driving telemetry; the
//! adapter identifies the game and recognizes its processes.
use crate::process::{contains_any, matches_any_contained};
use vstd::prelude::*;

verus! {

/// Update rate of an adapter that expects no data.
pub const UPDATE_RATE_MS: u64 = 1000;

/// The executable names of the F1 Manager games.
pub open spec fn f1_manager_process_names() -> Seq<&'static str> {
    seq![
        "f1manager2022.exe",
        "f1manager2023.exe",
        "f1manager2024.exe",
        "f1manager22.exe",
        "f1manager23.exe",
        "f1manager24.exe",
    ]
}

/// F1 Manager adapter.
#[derive(Debug, Clone, Copy, PartialEq, Eq, Structural)]
pub struct F1ManagerAdapter;

impl F1ManagerAdapter {
    pub fn new() -> (r: Self) {
        F1ManagerAdapter
    }

    pub fn game_id(&self) -> (r: &'static str)
        ensures
            r@ == "f1_manager"@,
    {
        "f1_manager"
    }

    pub fn expected_update_rate_ms(&self) -> (r: u64)
        ensures
            r == UPDATE_RATE_MS,
    {
        UPDATE_RATE_MS
    }

    /// Whether a running process's executable name is an F1 Manager game's.
    pub fn is_game_process_name(&self, exe_name: &[u8]) -> (r: bool)
        ensures
            r == matches_any_contained(exe_name@, f1_manager_process_names()),
    {
        let names: [&str; 6] = [
            "f1manager2022.exe",
            "f1manager2023.exe",
            "f1manager2024.exe",
            "f1manager22.exe",
            "f1manager23.exe",
            "f1manager24.exe",
        ];
        assert(names@ =~= f1_manager_process_names());
        contains_any(exe_name, names.as_slice())
    }
}

} // verus!
