use telemetry_adapters::error::TelemetryError;
use telemetry_adapters::forza::{
    detect_format, is_forza_process_name, parse_forza_cardash, parse_forza_packet, parse_forza_sled, ForzaAdapter,
    ForzaPacketFormat, ForzaTelemetry, FORZA_CARDASH_SIZE, FORZA_SLED_SIZE, OFF_CURRENT_RPM, OFF_DASH_GEAR,
    OFF_DASH_LAP_NUMBER, OFF_DASH_STEER, OFF_ENGINE_MAX_RPM, OFF_IS_RACE_ON, OFF_VEL_X, OFF_VEL_Y, OFF_VEL_Z,
};

fn make_sled_packet(is_race_on: i32, rpm: f32, vel: (f32, f32, f32)) -> Vec<u8> {
    let mut data = vec![0u8; FORZA_SLED_SIZE];
    data[OFF_IS_RACE_ON..OFF_IS_RACE_ON + 4].copy_from_slice(&is_race_on.to_le_bytes());
    data[OFF_ENGINE_MAX_RPM..OFF_ENGINE_MAX_RPM + 4].copy_from_slice(&8000.0f32.to_le_bytes());
    data[OFF_CURRENT_RPM..OFF_CURRENT_RPM + 4].copy_from_slice(&rpm.to_le_bytes());
    data[OFF_VEL_X..OFF_VEL_X + 4].copy_from_slice(&vel.0.to_le_bytes());
    data[OFF_VEL_Y..OFF_VEL_Y + 4].copy_from_slice(&vel.1.to_le_bytes());
    data[OFF_VEL_Z..OFF_VEL_Z + 4].copy_from_slice(&vel.2.to_le_bytes());
    data
}

fn f(bits: u32) -> f32 {
    f32::from_bits(bits)
}

fn sled_of(t: ForzaTelemetry) -> telemetry_adapters::forza::ForzaSled {
    match t {
        ForzaTelemetry::Sled(s) => s,
        ForzaTelemetry::CarDash(s, _) => s,
        ForzaTelemetry::RaceOff => panic!("race off"),
    }
}

#[test]
fn test_parse_sled_valid() {
    let data = make_sled_packet(1, 5000.0, (20.0, 0.0, 0.0));
    let s = sled_of(parse_forza_sled(&data).unwrap());
    assert!((f(s.current_rpm_bits) - 5000.0).abs() < 0.01);
    assert!((f(s.vel_x_bits) - 20.0).abs() < 0.01);
    assert_eq!(f(s.engine_max_rpm_bits), 8000.0);
}

#[test]
fn test_parse_sled_race_off() {
    let data = make_sled_packet(0, 5000.0, (20.0, 0.0, 0.0));
    assert_eq!(parse_forza_sled(&data), Ok(ForzaTelemetry::RaceOff));
}

#[test]
fn test_parse_sled_gear_reverse() {
    let data = make_sled_packet(1, 1000.0, (-5.0, 0.0, 0.0));
    let s = sled_of(parse_forza_sled(&data).unwrap());
    assert_eq!(f(s.vel_x_bits), -5.0);
}

#[test]
fn test_parse_sled_truncated() {
    let data = vec![0u8; 100];
    assert_eq!(parse_forza_sled(&data), Err(TelemetryError::TooShort { needed: 232, actual: 100 }));
}

#[test]
fn test_detect_format() {
    assert_eq!(detect_format(FORZA_SLED_SIZE), ForzaPacketFormat::Sled);
    assert_eq!(detect_format(FORZA_CARDASH_SIZE), ForzaPacketFormat::CarDash);
    assert_eq!(detect_format(100), ForzaPacketFormat::Unknown);
}

#[test]
fn test_parse_unknown_format() {
    let data = vec![0u8; 100];
    assert_eq!(parse_forza_packet(&data), Err(TelemetryError::UnknownPacketLength(100)));
}

#[test]
fn forza_test_normalization_clamp() {
    let data = make_sled_packet(1, 5000.0, (20.0, 0.0, 0.0));
    let s = sled_of(parse_forza_sled(&data).unwrap());
    assert!(f(s.current_rpm_bits) >= 0.0);
}

#[test]
fn test_parse_cardash_valid() {
    let mut data = vec![0u8; FORZA_CARDASH_SIZE];
    let sled = make_sled_packet(1, 4000.0, (15.0, 0.0, 0.0));
    data[..FORZA_SLED_SIZE].copy_from_slice(&sled);
    data[OFF_DASH_GEAR] = 4;
    data[OFF_DASH_STEER] = 0xF6;
    data[OFF_DASH_LAP_NUMBER..OFF_DASH_LAP_NUMBER + 2].copy_from_slice(&7u16.to_le_bytes());
    match parse_forza_cardash(&data).unwrap() {
        ForzaTelemetry::CarDash(s, d) => {
            assert!((f(s.current_rpm_bits) - 4000.0).abs() < 0.01);
            assert_eq!(d.gear, 3);
            assert_eq!(d.steer, -10);
            assert_eq!(d.lap_number, 7);
        }
        other => panic!("unexpected {:?}", other),
    }
}

#[test]
fn forza_packet_dispatches_on_length() {
    let sled = make_sled_packet(1, 4000.0, (15.0, 0.0, 0.0));
    assert!(matches!(parse_forza_packet(&sled), Ok(ForzaTelemetry::Sled(_))));
    let mut dash = vec![0u8; FORZA_CARDASH_SIZE];
    dash[..FORZA_SLED_SIZE].copy_from_slice(&sled);
    assert!(matches!(parse_forza_packet(&dash), Ok(ForzaTelemetry::CarDash(_, _))));
    let mut longer = sled.clone();
    longer.push(0);
    assert!(parse_forza_packet(&longer).is_err());
}

#[test]
fn forza_test_adapter_game_id() {
    assert_eq!(ForzaAdapter::new().game_id(), "forza_motorsport");
}

#[test]
fn forza_test_adapter_update_rate() {
    assert_eq!(ForzaAdapter::new().expected_update_rate_ms(), 16);
}

#[test]
fn forza_process_names_recognised() {
    assert!(is_forza_process_name(b"ForzaHorizon5.exe"));
    assert!(is_forza_process_name(b"Forza Motorsport 7.exe"));
    assert!(!is_forza_process_name(b"gt7.exe"));
}
