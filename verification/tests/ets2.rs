use telemetry_adapters::error::TelemetryError;
use telemetry_adapters::ets2::{
    parse_scs_packet, Ets2Adapter, Ets2Variant, OFF_ENGINE_LOAD, OFF_ENGINE_RPM, OFF_FUEL_RATIO, OFF_GEAR,
    OFF_SPEED_MS, OFF_VERSION, SCS_SHARED_MEMORY_SIZE,
};

fn make_scs_packet(speed: f32, rpm: f32, gear: i32, fuel: f32, load: f32) -> Vec<u8> {
    let mut data = vec![0u8; SCS_SHARED_MEMORY_SIZE];
    data[OFF_VERSION..OFF_VERSION + 4].copy_from_slice(&1u32.to_le_bytes());
    data[OFF_SPEED_MS..OFF_SPEED_MS + 4].copy_from_slice(&speed.to_le_bytes());
    data[OFF_ENGINE_RPM..OFF_ENGINE_RPM + 4].copy_from_slice(&rpm.to_le_bytes());
    data[OFF_GEAR..OFF_GEAR + 4].copy_from_slice(&gear.to_le_bytes());
    data[OFF_FUEL_RATIO..OFF_FUEL_RATIO + 4].copy_from_slice(&fuel.to_le_bytes());
    data[OFF_ENGINE_LOAD..OFF_ENGINE_LOAD + 4].copy_from_slice(&load.to_le_bytes());
    data
}

fn f(bits: u32) -> f32 {
    f32::from_bits(bits)
}

#[test]
fn ets2_test_parse_valid_packet() {
    let data = make_scs_packet(20.0, 1500.0, 4, 0.7, 0.5);
    let result = parse_scs_packet(&data).unwrap();
    assert!((f(result.speed_ms_bits) - 20.0).abs() < 0.001);
    assert!((f(result.rpm_bits) - 1500.0).abs() < 0.1);
    assert_eq!(result.gear, 4);
    assert!((f(result.fuel_ratio_bits) - 0.7).abs() < 0.001);
    assert!((f(result.engine_load_bits) - 0.5).abs() < 0.001);
}

#[test]
fn test_parse_reverse_gear() {
    let data = make_scs_packet(0.0, 800.0, -1, 0.5, 0.2);
    assert_eq!(parse_scs_packet(&data).unwrap().gear, -1);
}

#[test]
fn test_parse_neutral_gear() {
    let data = make_scs_packet(0.0, 700.0, 0, 0.9, 0.1);
    assert_eq!(parse_scs_packet(&data).unwrap().gear, 0);
}

#[test]
fn ets2_gear_clamped_to_range() {
    assert_eq!(parse_scs_packet(&make_scs_packet(0.0, 0.0, -7, 0.0, 0.0)).unwrap().gear, -1);
    assert_eq!(parse_scs_packet(&make_scs_packet(0.0, 0.0, 99, 0.0, 0.0)).unwrap().gear, 12);
}

#[test]
fn test_wrong_version_rejected() {
    let mut data = make_scs_packet(10.0, 1000.0, 1, 0.5, 0.3);
    data[OFF_VERSION..OFF_VERSION + 4].copy_from_slice(&2u32.to_le_bytes());
    assert_eq!(parse_scs_packet(&data), Err(TelemetryError::UnexpectedVersion(2)));
}

#[test]
fn test_short_buffer_rejected() {
    let data = vec![0u8; 10];
    assert_eq!(parse_scs_packet(&data), Err(TelemetryError::TooShort { needed: 24, actual: 10 }));
}

#[test]
fn ets2_minimum_size_snapshot_parses() {
    let data = make_scs_packet(1.0, 2.0, 3, 0.0, 0.0);
    assert!(parse_scs_packet(&data[..24]).is_ok());
    assert!(parse_scs_packet(&data[..23]).is_err());
}

#[test]
fn test_adapter_game_id_ets2() {
    let adapter = Ets2Adapter::with_variant(Ets2Variant::Ets2);
    assert_eq!(adapter.game_id(), "ets2");
}

#[test]
fn test_adapter_game_id_ats() {
    let adapter = Ets2Adapter::with_variant(Ets2Variant::Ats);
    assert_eq!(adapter.game_id(), "ats");
}

#[test]
fn ets2_test_update_rate() {
    assert_eq!(Ets2Adapter::new().expected_update_rate_ms(), 50);
}

#[test]
fn test_empty_input() {
    assert!(parse_scs_packet(&[]).is_err());
}

#[test]
fn ets2_test_speed_is_nonnegative() {
    let data = make_scs_packet(25.0, 1200.0, 3, 0.6, 0.4);
    assert!(f(parse_scs_packet(&data).unwrap().speed_ms_bits) >= 0.0);
}

#[test]
fn test_gear_in_valid_range() {
    for g in -1i32..=12 {
        let data = make_scs_packet(10.0, 1000.0, g, 0.5, 0.3);
        let result = parse_scs_packet(&data).unwrap();
        assert!(result.gear >= -1 && result.gear <= 12);
        assert_eq!(result.gear as i32, g);
    }
}

#[test]
fn ets2_process_names_follow_variant() {
    let ets2 = Ets2Adapter::new();
    let ats = Ets2Adapter::with_variant(Ets2Variant::Ats);
    assert!(ets2.is_game_process_name(b"EuroTrucks2.exe"));
    assert!(!ets2.is_game_process_name(b"amtrucks.exe"));
    assert!(ats.is_game_process_name(b"amtrucks.exe"));
    assert!(!ats.is_game_process_name(b"eurotrucks2.exe"));
}
