use telemetry_adapters::ac_evo::ACEvoAdapter;
use telemetry_adapters::acc2::ACC2Adapter;
use telemetry_adapters::f1_manager::F1ManagerAdapter;
use telemetry_adapters::gravel::{GravelAdapter, SIMHUB_PORT};

#[test]
fn ac_evo_game_id_is_correct() {
    assert_eq!(ACEvoAdapter::new().game_id(), "ac_evo");
}

#[test]
fn ac_evo_update_rate_is_one_second() {
    assert_eq!(ACEvoAdapter::new().expected_update_rate_ms(), 1000);
    assert!(!ACEvoAdapter::new().is_game_running());
}

#[test]
fn acc2_game_id_is_correct() {
    assert_eq!(ACC2Adapter::new().game_id(), "acc2");
}

#[test]
fn acc2_update_rate_is_one_second() {
    assert_eq!(ACC2Adapter::new().expected_update_rate_ms(), 1000);
    assert!(!ACC2Adapter::new().is_game_running());
}

#[test]
fn f1_manager_test_adapter_game_id() {
    assert_eq!(F1ManagerAdapter::new().game_id(), "f1_manager");
}

#[test]
fn f1_manager_test_update_rate() {
    let adapter = F1ManagerAdapter::new();
    assert_eq!(adapter.expected_update_rate_ms(), 1000);
}

#[test]
fn test_default_impl() {
    let adapter = F1ManagerAdapter;
    assert_eq!(adapter.game_id(), "f1_manager");
}

#[test]
fn f1_manager_process_names_recognised() {
    let adapter = F1ManagerAdapter::new();
    assert!(adapter.is_game_process_name(b"F1Manager2024.exe"));
    assert!(adapter.is_game_process_name(b"c:\\games\\f1manager23.exe"));
    assert!(!adapter.is_game_process_name(b"f1_23.exe"));
    assert!(!adapter.is_game_process_name(b""));
}

#[test]
fn gravel_game_id_is_correct() {
    assert_eq!(GravelAdapter::new().game_id(), "gravel");
}

#[test]
fn gravel_test_port_constants() {
    assert_eq!(SIMHUB_PORT, 5555);
}

#[test]
fn gravel_test_update_rate() {
    let adapter = GravelAdapter::new();
    assert_eq!(adapter.expected_update_rate_ms(), 16);
}

#[test]
fn test_default() {
    let a = GravelAdapter::default();
    assert_eq!(a.game_id(), "gravel");
    assert_eq!(a, GravelAdapter::new());
}

#[test]
fn gravel_test_is_game_running() {
    let adapter = GravelAdapter::new();
    assert!(!adapter.is_game_running());
}
