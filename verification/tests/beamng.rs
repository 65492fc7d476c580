use telemetry_adapters::beamng::{
    is_beamng_process_name, parse_outgauge_packet, BeamNGAdapter, OFF_BRAKE, OFF_CLUTCH, OFF_GEAR, OFF_RPM,
    OFF_SPEED, OFF_THROTTLE, OUTGAUGE_PACKET_SIZE,
};

fn make_outgauge_packet(speed: f32, rpm: f32, gear: u8, throttle: f32, brake: f32, clutch: f32) -> Vec<u8> {
    let mut data = vec![0u8; OUTGAUGE_PACKET_SIZE];
    data[OFF_SPEED..OFF_SPEED + 4].copy_from_slice(&speed.to_le_bytes());
    data[OFF_RPM..OFF_RPM + 4].copy_from_slice(&rpm.to_le_bytes());
    data[OFF_GEAR] = gear;
    data[OFF_THROTTLE..OFF_THROTTLE + 4].copy_from_slice(&throttle.to_le_bytes());
    data[OFF_BRAKE..OFF_BRAKE + 4].copy_from_slice(&brake.to_le_bytes());
    data[OFF_CLUTCH..OFF_CLUTCH + 4].copy_from_slice(&clutch.to_le_bytes());
    data
}

fn f(bits: u32) -> f32 {
    f32::from_bits(bits)
}

#[test]
fn beamng_test_parse_valid_packet() {
    let data = make_outgauge_packet(30.0, 4500.0, 3, 0.6, 0.0, 0.0);
    let result = parse_outgauge_packet(&data).unwrap();
    assert!((f(result.speed_bits) - 30.0).abs() < 0.01);
    assert!((f(result.rpm_bits) - 4500.0).abs() < 0.01);
    assert_eq!(result.gear, 2);
    assert!((f(result.throttle_bits) - 0.6).abs() < 0.001);
    assert!(f(result.brake_bits).abs() < 0.001);
}

#[test]
fn test_gear_reverse() {
    let data = make_outgauge_packet(5.0, 2000.0, 0, 0.0, 0.5, 0.0);
    assert_eq!(parse_outgauge_packet(&data).unwrap().gear, -1);
}

#[test]
fn test_gear_neutral() {
    let data = make_outgauge_packet(0.0, 800.0, 1, 0.0, 0.0, 0.0);
    assert_eq!(parse_outgauge_packet(&data).unwrap().gear, 0);
}

#[test]
fn beamng_gear_byte_above_128_wraps_signed() {
    let data = make_outgauge_packet(0.0, 0.0, 200, 0.0, 0.0, 0.0);
    assert_eq!(parse_outgauge_packet(&data).unwrap().gear, (199u8) as i8);
}

#[test]
fn beamng_test_parse_truncated_packet() {
    let data = vec![0u8; 50];
    assert!(parse_outgauge_packet(&data).is_err());
    assert!(parse_outgauge_packet(&vec![0u8; OUTGAUGE_PACKET_SIZE - 1]).is_err());
}

#[test]
fn beamng_non_finite_floats_read_as_zero() {
    let data = make_outgauge_packet(f32::NAN, f32::INFINITY, 2, 0.5, 0.0, 0.0);
    let result = parse_outgauge_packet(&data).unwrap();
    assert_eq!(result.speed_bits, 0);
    assert_eq!(result.rpm_bits, 0);
    assert_eq!(f(result.throttle_bits), 0.5);
}

#[test]
fn beamng_test_adapter_game_id() {
    assert_eq!(BeamNGAdapter::new().game_id(), "beamng_drive");
}

#[test]
fn beamng_test_adapter_update_rate() {
    assert_eq!(BeamNGAdapter::new().expected_update_rate_ms(), 16);
}

#[test]
fn beamng_test_normalize_delegates_to_parse() {
    let adapter = BeamNGAdapter::new();
    let data = make_outgauge_packet(40.0, 5000.0, 4, 0.8, 0.0, 0.1);
    let result = adapter.normalize(&data).unwrap();
    assert!((f(result.speed_bits) - 40.0).abs() < 0.01);
    assert!((f(result.clutch_bits) - 0.1).abs() < 0.001);
}

#[test]
fn test_parse_92_byte_packet_without_id() {
    let mut data = vec![0u8; 92];
    data[OFF_GEAR] = 2;
    assert_eq!(parse_outgauge_packet(&data).unwrap().gear, 1);
}

#[test]
fn test_parse_96_byte_packet_with_id() {
    let mut data = vec![0u8; 96];
    data[OFF_GEAR] = 1;
    assert_eq!(parse_outgauge_packet(&data).unwrap().gear, 0);
}

#[test]
fn beamng_process_names_recognised() {
    assert!(is_beamng_process_name(b"BeamNG.drive.x64.exe"));
    assert!(is_beamng_process_name(b"C:\\Steam\\beamng.drive.exe"));
    assert!(!is_beamng_process_name(b"beamng.exe"));
}

#[test]
fn beamng_with_port_overrides_port() {
    assert_eq!(BeamNGAdapter::new().with_port(5000).bind_port, 5000);
    assert_eq!(BeamNGAdapter::new().bind_port, 4444);
}
