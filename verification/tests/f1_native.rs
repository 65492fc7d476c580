use telemetry_adapters::error::TelemetryError;
use telemetry_adapters::f1_25::{
    parse_car_telemetry, parse_header, F125State, PACKET_ID_CAR_STATUS, PACKET_ID_CAR_TELEMETRY,
    PACKET_ID_SESSION,
};
use telemetry_adapters::f1_native::{
    build_car_status_packet_f23, build_car_status_packet_f24, build_car_telemetry_packet_native,
    build_f1_native_header_bytes, parse_car_status_2023, parse_car_status_2024, F1NativeAdapter,
    PACKET_FORMAT_2023, PACKET_FORMAT_2024,
};

fn b(v: f32) -> u32 {
    v.to_bits()
}

fn bits4(v: [f32; 4]) -> [u32; 4] {
    [v[0].to_bits(), v[1].to_bits(), v[2].to_bits(), v[3].to_bits()]
}

fn f(bits: u32) -> f32 {
    f32::from_bits(bits)
}

#[test]
fn parse_header_extracts_format_2023() {
    let raw = build_f1_native_header_bytes(2023, 6, 0);
    let header = parse_header(&raw).unwrap();
    assert_eq!(header.packet_format, 2023);
    assert_eq!(header.packet_id, 6);
}

#[test]
fn parse_header_extracts_format_2024() {
    let raw = build_f1_native_header_bytes(2024, 7, 2);
    let header = parse_header(&raw).unwrap();
    assert_eq!(header.packet_format, 2024);
    assert_eq!(header.packet_id, 7);
    assert_eq!(header.player_car_index, 2);
}

#[test]
fn process_packet_rejects_format_2025() {
    let raw = build_f1_native_header_bytes(2025, PACKET_ID_CAR_TELEMETRY, 0);
    let mut state = F125State::new();
    let result = F1NativeAdapter::process_packet(&mut state, &raw);
    assert_eq!(result.unwrap_err(), TelemetryError::UnexpectedFormat(2025));
}

#[test]
fn process_packet_rejects_format_2022() {
    let raw = build_f1_native_header_bytes(2022, PACKET_ID_CAR_TELEMETRY, 0);
    let mut state = F125State::new();
    let result = F1NativeAdapter::process_packet(&mut state, &raw);
    assert!(result.is_err());
}

#[test]
fn car_status_2023_round_trip_fuel_ers_drs() {
    let raw = build_car_status_packet_f23(0, b(30.0), b(2_500_000.0), 1, 0, 12, 15_000);
    let status = parse_car_status_2023(&raw, 0).unwrap();
    assert!((f(status.fuel_in_tank_bits) - 30.0).abs() < 1e-5);
    assert!((f(status.ers_store_energy_bits) - 2_500_000.0).abs() < 1.0);
    assert_eq!(status.drs_allowed, 1);
    assert_eq!(status.pit_limiter_status, 0);
    assert_eq!(status.actual_tyre_compound, 12);
    assert_eq!(status.max_rpm, 15_000);
    assert_eq!(f(status.engine_power_ice_bits), 0.0);
    assert_eq!(f(status.engine_power_mguk_bits), 0.0);
}

#[test]
fn car_status_2023_rejects_short_packet() {
    let result = parse_car_status_2023(&[0u8; 100], 0);
    assert!(matches!(result, Err(TelemetryError::TooShort { .. })));
}

#[test]
fn car_status_2023_rejects_out_of_range_player_index() {
    let raw = build_car_status_packet_f23(0, b(10.0), b(1_000_000.0), 0, 0, 13, 12000);
    assert!(parse_car_status_2023(&raw, 22).is_err());
}

#[test]
fn car_status_2023_pit_limiter_active() {
    let raw = build_car_status_packet_f23(1, b(5.0), b(0.0), 0, 1, 14, 10000);
    let status = parse_car_status_2023(&raw, 1).unwrap();
    assert_eq!(status.pit_limiter_status, 1);
}

#[test]
fn car_status_2024_round_trip_fuel_ers_engine_power() {
    let raw = build_car_status_packet_f24(0, b(28.5), b(3_000_000.0), 1, 0, 13, 14_500);
    let status = parse_car_status_2024(&raw, 0).unwrap();
    assert!((f(status.fuel_in_tank_bits) - 28.5).abs() < 1e-5);
    assert!((f(status.ers_store_energy_bits) - 3_000_000.0).abs() < 1.0);
    assert_eq!(status.drs_allowed, 1);
    assert_eq!(status.actual_tyre_compound, 13);
    assert_eq!(status.max_rpm, 14_500);
    assert_eq!(f(status.engine_power_ice_bits), 0.0);
}

#[test]
fn car_status_2024_rejects_short_packet() {
    assert!(parse_car_status_2024(&[0u8; 200], 0).is_err());
}

#[test]
fn car_status_2024_rejects_out_of_range_player_index() {
    let raw = build_car_status_packet_f24(0, b(10.0), b(0.0), 0, 0, 14, 12000);
    assert!(parse_car_status_2024(&raw, 22).is_err());
}

#[test]
fn car_telemetry_2023_round_trip_speed_gear_rpm() {
    let raw = build_car_telemetry_packet_native(
        PACKET_FORMAT_2023, 0, 180, 5, 12000, b(0.75), b(0.0), b(-0.1), 0, bits4([23.0, 23.0, 22.5, 22.5]),
    );
    let header = parse_header(&raw).unwrap();
    assert_eq!(header.packet_format, 2023);
    let telem = parse_car_telemetry(&raw, 0).unwrap();
    assert_eq!(telem.speed_kmh, 180);
    assert_eq!(telem.gear, 5);
    assert_eq!(telem.engine_rpm, 12000);
    assert!((f(telem.throttle_bits) - 0.75).abs() < 1e-5);
    assert_eq!(telem.drs, 0);
    assert!((f(telem.tyres_pressure_bits[2]) - 22.5).abs() < 1e-4);
}

#[test]
fn car_telemetry_2024_drs_active() {
    let raw = build_car_telemetry_packet_native(PACKET_FORMAT_2024, 0, 250, 8, 14500, b(0.95), b(0.0), b(0.05), 1, bits4([24.0; 4]));
    let telem = parse_car_telemetry(&raw, 0).unwrap();
    assert_eq!(telem.drs, 1);
    assert_eq!(telem.speed_kmh, 250);
}

#[test]
fn car_telemetry_reverse_gear() {
    let raw = build_car_telemetry_packet_native(PACKET_FORMAT_2023, 0, 5, -1, 2000, b(0.0), b(0.0), b(0.0), 0, bits4([20.0; 4]));
    let telem = parse_car_telemetry(&raw, 0).unwrap();
    assert_eq!(telem.gear, -1);
}

#[test]
fn process_packet_emits_normalized_after_telem_and_status_f23() {
    let mut state = F125State::new();
    let telem_raw = build_car_telemetry_packet_native(PACKET_FORMAT_2023, 0, 180, 5, 12000, b(0.7), b(0.0), b(0.0), 0, bits4([23.0; 4]));
    let result = F1NativeAdapter::process_packet(&mut state, &telem_raw).unwrap();
    assert!(result.is_none(), "should not emit before status is received");
    let status_raw = build_car_status_packet_f23(0, b(25.0), b(2_000_000.0), 1, 0, 12, 13000);
    let frame = F1NativeAdapter::process_packet(&mut state, &status_raw).unwrap().unwrap();
    assert_eq!(frame.telemetry.speed_kmh, 180);
    assert_eq!(frame.telemetry.gear, 5);
    assert_eq!(frame.telemetry.engine_rpm, 12000);
    assert_eq!(frame.status.drs_allowed, 1);
    assert_eq!(frame.telemetry.drs, 0);
    assert_eq!(frame.status.pit_limiter_status, 0);
}

#[test]
fn process_packet_emits_normalized_after_telem_and_status_f24() {
    let mut state = F125State::new();
    let telem_raw = build_car_telemetry_packet_native(PACKET_FORMAT_2024, 0, 300, 8, 14000, b(1.0), b(0.0), b(0.0), 1, bits4([24.0; 4]));
    F1NativeAdapter::process_packet(&mut state, &telem_raw).unwrap();
    let status_raw = build_car_status_packet_f24(0, b(10.0), b(3_500_000.0), 1, 0, 14, 15000);
    let frame = F1NativeAdapter::process_packet(&mut state, &status_raw).unwrap().unwrap();
    assert_eq!(frame.telemetry.speed_kmh, 300);
    assert_eq!(frame.telemetry.gear, 8);
    assert_eq!(frame.telemetry.drs, 1);
    assert!(f(frame.status.ers_store_energy_bits) > 0.0);
}

#[test]
fn process_packet_updates_session_data() {
    let mut state = F125State::new();
    let mut session_raw = build_f1_native_header_bytes(PACKET_FORMAT_2023, PACKET_ID_SESSION, 0);
    session_raw.push(0);
    session_raw.push(32i8 as u8);
    session_raw.push(26i8 as u8);
    session_raw.push(50);
    session_raw.extend_from_slice(&5326u16.to_le_bytes());
    session_raw.push(6);
    session_raw.push(11i8 as u8);
    let result = F1NativeAdapter::process_packet(&mut state, &session_raw).unwrap();
    assert!(result.is_none(), "Session packet should not emit telemetry");
    assert_eq!(state.session.track_temperature, 32);
    assert_eq!(state.session.air_temperature, 26);
    assert_eq!(state.session.session_type, 6);
    assert_eq!(state.session.track_id, 11);
}

#[test]
fn process_packet_ignores_unknown_packet_id() {
    let raw = build_f1_native_header_bytes(PACKET_FORMAT_2023, 99, 0);
    let mut state = F125State::new();
    let result = F1NativeAdapter::process_packet(&mut state, &raw).unwrap();
    assert!(result.is_none());
}

#[test]
fn adapter_normalize_single_car_telemetry_packet() {
    let adapter = F1NativeAdapter::new(None, None);
    let raw = build_car_telemetry_packet_native(PACKET_FORMAT_2023, 0, 144, 4, 9500, b(0.5), b(0.2), b(0.0), 0, bits4([21.0; 4]));
    let frame = adapter.normalize(&raw).unwrap();
    assert_eq!(frame.telemetry.speed_kmh, 144);
    assert_eq!(frame.telemetry.gear, 4);
    assert_eq!(frame.telemetry.engine_rpm, 9500);
}

#[test]
fn adapter_normalize_rejects_car_status_packet_alone() {
    let adapter = F1NativeAdapter::new(None, None);
    let raw = build_car_status_packet_f23(0, b(20.0), b(1_000_000.0), 0, 0, 13, 12000);
    assert_eq!(adapter.normalize(&raw).unwrap_err(), TelemetryError::IncompletePacket(PACKET_ID_CAR_STATUS));
}

#[test]
fn adapter_normalize_rejects_wrong_format() {
    let adapter = F1NativeAdapter::new(None, None);
    let raw = build_f1_native_header_bytes(2025, PACKET_ID_CAR_TELEMETRY, 0);
    let result = adapter.normalize(&raw);
    assert!(result.is_err());
}

#[test]
fn adapter_game_id_is_f1_native() {
    let adapter = F1NativeAdapter::new(None, None);
    assert_eq!(adapter.game_id(), "f1_native");
}

#[test]
fn f1_native_settings_override_defaults() {
    let a = F1NativeAdapter::new(Some("30000"), Some("500"));
    assert_eq!(a.bind_port, 30000);
    assert_eq!(a.heartbeat_timeout_ms, 500);
    let d = F1NativeAdapter::new(Some("0"), Some("abc"));
    assert_eq!(d.bind_port, 20777);
    assert_eq!(d.heartbeat_timeout_ms, 2000);
}

#[test]
fn f1_native_heartbeat_window() {
    let a = F1NativeAdapter::new(None, None);
    assert!(!a.is_recent_packet(0, 1_000_000));
    assert!(a.is_recent_packet(1_000_000, 1_000_000 + 2_000 * 1_000_000));
    assert!(!a.is_recent_packet(1_000_000, 1_000_001 + 2_000 * 1_000_000));
}
