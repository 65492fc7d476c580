use telemetry_adapters::dakar::{
    parse_dakar_packet, DakarDesertRallyAdapter, DAKAR_MIN_PACKET_SIZE, OFF_BRAKE, OFF_GEAR, OFF_LATERAL_G,
    OFF_LONGITUDINAL_G, OFF_RPM, OFF_SPEED, OFF_STEERING, OFF_THROTTLE,
};
use telemetry_adapters::error::TelemetryError;

#[allow(clippy::too_many_arguments)]
fn make_dakar_packet(
    speed: f32,
    rpm: f32,
    gear: u8,
    throttle: f32,
    brake: f32,
    steering: f32,
    lateral_g: f32,
    longitudinal_g: f32,
) -> Vec<u8> {
    let mut data = vec![0u8; DAKAR_MIN_PACKET_SIZE];
    data[0..4].copy_from_slice(b"DAKR");
    data[OFF_SPEED..OFF_SPEED + 4].copy_from_slice(&speed.to_le_bytes());
    data[OFF_RPM..OFF_RPM + 4].copy_from_slice(&rpm.to_le_bytes());
    data[OFF_GEAR] = gear;
    data[OFF_THROTTLE..OFF_THROTTLE + 4].copy_from_slice(&throttle.to_le_bytes());
    data[OFF_BRAKE..OFF_BRAKE + 4].copy_from_slice(&brake.to_le_bytes());
    data[OFF_STEERING..OFF_STEERING + 4].copy_from_slice(&steering.to_le_bytes());
    data[OFF_LATERAL_G..OFF_LATERAL_G + 4].copy_from_slice(&lateral_g.to_le_bytes());
    data[OFF_LONGITUDINAL_G..OFF_LONGITUDINAL_G + 4].copy_from_slice(&longitudinal_g.to_le_bytes());
    data
}

fn f(bits: u32) -> f32 {
    f32::from_bits(bits)
}

#[test]
fn dakar_test_parse_valid_packet() {
    let data = make_dakar_packet(18.0, 3500.0, 3, 0.7, 0.0, 0.1, 0.5, 0.3);
    let result = parse_dakar_packet(&data).unwrap();
    assert!((f(result.speed_bits) - 18.0).abs() < 0.001);
    assert!((f(result.rpm_bits) - 3500.0).abs() < 0.1);
    assert_eq!(result.gear, 3);
    assert!((f(result.lateral_g_bits) - 0.5).abs() < 0.001);
    assert!((f(result.longitudinal_g_bits) - 0.3).abs() < 0.001);
    assert!((f(result.throttle_bits) - 0.7).abs() < 0.001);
    assert!((f(result.steering_bits) - 0.1).abs() < 0.001);
}

#[test]
fn test_reverse_gear_encoding() {
    let data = make_dakar_packet(5.0, 1500.0, 255, 0.3, 0.0, 0.0, 0.0, 0.0);
    assert_eq!(parse_dakar_packet(&data).unwrap().gear, -1);
}

#[test]
fn dakar_forward_gear_capped_at_twelve() {
    let data = make_dakar_packet(5.0, 1500.0, 40, 0.3, 0.0, 0.0, 0.0, 0.0);
    assert_eq!(parse_dakar_packet(&data).unwrap().gear, 12);
}

#[test]
fn test_magic_mismatch_rejected() {
    let mut data = make_dakar_packet(10.0, 2000.0, 2, 0.5, 0.1, 0.0, 0.0, 0.0);
    data[0] = 0xFF;
    assert_eq!(parse_dakar_packet(&data), Err(TelemetryError::BadMagic));
}

#[test]
fn test_short_packet_rejected() {
    let data = vec![0u8; 10];
    assert_eq!(parse_dakar_packet(&data), Err(TelemetryError::TooShort { needed: 40, actual: 10 }));
}

#[test]
fn dakar_test_adapter_game_id() {
    assert_eq!(DakarDesertRallyAdapter::new().game_id(), "dakar_desert_rally");
}

#[test]
fn dakar_test_update_rate() {
    assert_eq!(DakarDesertRallyAdapter::new().expected_update_rate_ms(), 16);
}

#[test]
fn test_empty_packet_rejected() {
    assert!(parse_dakar_packet(&[]).is_err());
}

#[test]
fn dakar_test_speed_is_nonnegative() {
    let data = make_dakar_packet(45.0, 5500.0, 4, 0.7, 0.0, -0.2, 0.3, 0.1);
    let result = parse_dakar_packet(&data).unwrap();
    assert!(f(result.speed_bits) >= 0.0);
}

#[test]
fn test_gear_range() {
    for g in 0u8..=8 {
        let data = make_dakar_packet(20.0, 3000.0, g, 0.5, 0.0, 0.0, 0.1, 0.0);
        let result = parse_dakar_packet(&data).unwrap();
        assert!(result.gear >= 0 && result.gear <= 8);
        assert_eq!(result.gear, g as i8);
    }
}

#[test]
fn dakar_adapter_normalize_matches_parse() {
    let adapter = DakarDesertRallyAdapter::new();
    let data = make_dakar_packet(20.0, 3000.0, 2, 0.5, 0.0, 0.0, 0.1, 0.0);
    assert_eq!(adapter.normalize(&data), parse_dakar_packet(&data));
}
