use telemetry_adapters::gran_turismo_7::{
    parse_decrypted, parse_decrypted_ext, salsa20_decrypt, FLAG_PAUSED, FLAG_TCS_ACTIVE, MAGIC,
    OFF_BEST_LAP_MS, OFF_BRAKE, OFF_CAR_CODE, OFF_CAR_TYPE_BYTE3, OFF_ENERGY_RECOVERY, OFF_ENGINE_RPM,
    OFF_FLAGS, OFF_FUEL_CAPACITY, OFF_FUEL_LEVEL, OFF_GEAR_BYTE, OFF_HEAVE, OFF_LAP_COUNT, OFF_LAST_LAP_MS,
    OFF_MAGIC, OFF_MAX_ALERT_RPM, OFF_SPEED_MS, OFF_SURGE, OFF_SWAY, OFF_THROTTLE, OFF_TIRE_TEMP_FL,
    OFF_TIRE_TEMP_FR, OFF_TIRE_TEMP_RL, OFF_TIRE_TEMP_RR, OFF_WATER_TEMP, OFF_WHEEL_ROTATION, PACKET_SIZE,
    PACKET_SIZE_TYPE2, PACKET_SIZE_TYPE3, XOR_KEY_TYPE1,
};
use telemetry_adapters::gran_turismo_sport::{GranTurismo7SportsAdapter, GTS_RECV_PORT, GTS_SEND_PORT};

fn make_decrypted_buf() -> [u8; PACKET_SIZE] {
    let mut buf = [0u8; PACKET_SIZE];
    buf[OFF_MAGIC..OFF_MAGIC + 4].copy_from_slice(&MAGIC.to_le_bytes());
    buf
}

fn make_type2_buf() -> Vec<u8> {
    let mut buf = vec![0u8; PACKET_SIZE_TYPE2];
    buf[OFF_MAGIC..OFF_MAGIC + 4].copy_from_slice(&MAGIC.to_le_bytes());
    buf
}

fn make_type3_buf() -> Vec<u8> {
    let mut buf = vec![0u8; PACKET_SIZE_TYPE3];
    buf[OFF_MAGIC..OFF_MAGIC + 4].copy_from_slice(&MAGIC.to_le_bytes());
    buf
}

fn put_f32(buf: &mut [u8], off: usize, v: f32) {
    buf[off..off + 4].copy_from_slice(&v.to_le_bytes());
}

fn f(bits: u32) -> f32 {
    f32::from_bits(bits)
}

#[test]
fn gran_turismo_sport_test_adapter_game_id() {
    assert_eq!(GranTurismo7SportsAdapter::new().game_id(), "gran_turismo_sport");
}

#[test]
fn gran_turismo_sport_test_adapter_update_rate() {
    assert_eq!(GranTurismo7SportsAdapter::new().expected_update_rate_ms(), 17);
}

#[test]
fn gran_turismo_sport_test_adapter_is_game_running() {
    assert!(!GranTurismo7SportsAdapter::new().is_game_running());
}

#[test]
fn gran_turismo_sport_test_normalize_short_data_returns_err() {
    assert!(GranTurismo7SportsAdapter::new().normalize(&[0u8; 10]).is_err());
}

#[test]
fn gran_turismo_sport_test_with_port_override() {
    let adapter = GranTurismo7SportsAdapter::new().with_port(12345);
    assert_eq!(adapter.recv_port, 12345);
}

#[test]
fn test_normalize_valid_packet() {
    let buf = make_decrypted_buf();
    assert!(parse_decrypted(&buf).is_ok());
}

#[test]
fn gts_normalize_decrypts_type1_packets() {
    let mut plain = make_decrypted_buf().to_vec();
    put_f32(&mut plain, OFF_ENGINE_RPM, 3000.0);
    plain[0x40..0x44].copy_from_slice(&[5, 6, 7, 8]);
    salsa20_decrypt(&mut plain, XOR_KEY_TYPE1);
    plain[0x40..0x44].copy_from_slice(&[5, 6, 7, 8]);
    let t = GranTurismo7SportsAdapter::new().normalize(&plain).unwrap();
    assert_eq!(f(t.rpm_bits), 3000.0);
}

#[test]
fn test_default_recv_port() {
    assert_eq!(GranTurismo7SportsAdapter::default().recv_port, GTS_RECV_PORT);
}

#[test]
fn gran_turismo_sport_test_empty_packet_returns_err() {
    assert!(GranTurismo7SportsAdapter::new().normalize(&[]).is_err());
}

#[test]
fn gran_turismo_sport_test_port_constants() {
    assert_eq!(GTS_RECV_PORT, 33340);
    assert_eq!(GTS_SEND_PORT, 33339);
}

#[test]
fn test_minimum_valid_decrypted_packet() {
    let buf = make_decrypted_buf();
    assert!(parse_decrypted(&buf).is_ok());
}

#[test]
fn test_gts_rpm_extraction() {
    let mut buf = make_decrypted_buf();
    put_f32(&mut buf, OFF_ENGINE_RPM, 5500.0);
    assert!((f(parse_decrypted(&buf).unwrap().rpm_bits) - 5500.0).abs() < 0.01);
}

#[test]
fn test_gts_speed_extraction() {
    let mut buf = make_decrypted_buf();
    put_f32(&mut buf, OFF_SPEED_MS, 44.4);
    assert!((f(parse_decrypted(&buf).unwrap().speed_bits) - 44.4).abs() < 0.001);
}

#[test]
fn test_gts_throttle_brake() {
    let mut buf = make_decrypted_buf();
    buf[OFF_THROTTLE] = 191;
    buf[OFF_BRAKE] = 64;
    let t = parse_decrypted(&buf).unwrap();
    assert_eq!(t.throttle_raw, 191);
    assert_eq!(t.brake_raw, 64);
}

#[test]
fn test_gts_gear_extraction() {
    let mut buf = make_decrypted_buf();
    buf[OFF_GEAR_BYTE] = (6 << 4) | 5;
    assert_eq!(parse_decrypted(&buf).unwrap().gear, 5);
}

#[test]
fn test_gts_fuel_percentage() {
    let mut buf = make_decrypted_buf();
    put_f32(&mut buf, OFF_FUEL_LEVEL, 15.0);
    put_f32(&mut buf, OFF_FUEL_CAPACITY, 60.0);
    let t = parse_decrypted(&buf).unwrap();
    assert_eq!(f(t.fuel_level_bits) / f(t.fuel_capacity_bits), 0.25);
}

#[test]
fn test_gts_water_temp() {
    let mut buf = make_decrypted_buf();
    put_f32(&mut buf, OFF_WATER_TEMP, 88.0);
    assert_eq!(f(parse_decrypted(&buf).unwrap().water_temp_bits), 88.0);
}

#[test]
fn test_gts_tire_temps() {
    let mut buf = make_decrypted_buf();
    put_f32(&mut buf, OFF_TIRE_TEMP_FL, 75.0);
    put_f32(&mut buf, OFF_TIRE_TEMP_FR, 78.0);
    put_f32(&mut buf, OFF_TIRE_TEMP_RL, 72.0);
    put_f32(&mut buf, OFF_TIRE_TEMP_RR, 74.0);
    let t = parse_decrypted(&buf).unwrap();
    assert_eq!(
        [f(t.tire_temp_fl_bits), f(t.tire_temp_fr_bits), f(t.tire_temp_rl_bits), f(t.tire_temp_rr_bits)],
        [75.0, 78.0, 72.0, 74.0]
    );
}

#[test]
fn test_gts_lap_and_times() {
    let mut buf = make_decrypted_buf();
    buf[OFF_LAP_COUNT..OFF_LAP_COUNT + 2].copy_from_slice(&7u16.to_le_bytes());
    buf[OFF_BEST_LAP_MS..OFF_BEST_LAP_MS + 4].copy_from_slice(&78_901i32.to_le_bytes());
    buf[OFF_LAST_LAP_MS..OFF_LAST_LAP_MS + 4].copy_from_slice(&80_123i32.to_le_bytes());
    let t = parse_decrypted(&buf).unwrap();
    assert_eq!(t.lap_count, 7);
    assert_eq!(t.best_lap_ms, 78_901);
    assert_eq!(t.last_lap_ms, 80_123);
}

#[test]
fn test_gts_max_rpm() {
    let mut buf = make_decrypted_buf();
    buf[OFF_MAX_ALERT_RPM..OFF_MAX_ALERT_RPM + 2].copy_from_slice(&9000u16.to_le_bytes());
    assert_eq!(parse_decrypted(&buf).unwrap().max_alert_rpm, 9000);
}

#[test]
fn test_gts_flags() {
    let mut buf = make_decrypted_buf();
    let flags: u16 = (1 << 11) | (1 << 1);
    assert_eq!(flags, FLAG_TCS_ACTIVE | FLAG_PAUSED);
    buf[OFF_FLAGS..OFF_FLAGS + 2].copy_from_slice(&flags.to_le_bytes());
    let t = parse_decrypted(&buf).unwrap();
    assert!(t.traction_control);
    assert!(t.paused);
    assert!(!t.asm_active);
    assert!(!t.rev_limit);
}

#[test]
fn test_gts_car_code() {
    let mut buf = make_decrypted_buf();
    buf[OFF_CAR_CODE..OFF_CAR_CODE + 4].copy_from_slice(&567i32.to_le_bytes());
    assert_eq!(parse_decrypted(&buf).unwrap().car_code, 567);
}

#[test]
fn test_gts_zero_car_code_no_id() {
    assert_eq!(parse_decrypted(&make_decrypted_buf()).unwrap().car_code, 0);
}

#[test]
fn test_gts_truncated_packets() {
    let adapter = GranTurismo7SportsAdapter::new();
    for size in [0, 1, 50, 100, 200, 295] {
        let data = vec![0u8; size];
        assert!(adapter.normalize(&data).is_err(), "packet of size {size} must return error");
    }
}

#[test]
fn test_gts_type2_extended_fields() {
    let mut buf = make_type2_buf();
    put_f32(&mut buf, OFF_WHEEL_ROTATION, 0.75);
    put_f32(&mut buf, OFF_SWAY, 0.2);
    put_f32(&mut buf, OFF_HEAVE, -0.3);
    put_f32(&mut buf, OFF_SURGE, 0.5);
    let m = parse_decrypted_ext(&buf).unwrap().motion.unwrap();
    assert_eq!(f(m.wheel_rotation_bits), 0.75);
    assert_eq!(f(m.sway_bits), 0.2);
    assert_eq!(f(m.heave_bits), -0.3);
    assert_eq!(f(m.surge_bits), 0.5);
}

#[test]
fn test_gts_type3_extended_fields() {
    let mut buf = make_type3_buf();
    buf[OFF_CAR_TYPE_BYTE3] = 4;
    put_f32(&mut buf, OFF_ENERGY_RECOVERY, 50.0);
    put_f32(&mut buf, OFF_WHEEL_ROTATION, -1.0);
    let t = parse_decrypted_ext(&buf).unwrap();
    let e = t.energy.unwrap();
    assert_eq!(e.car_type, 4);
    assert_eq!(f(e.energy_recovery_bits), 50.0);
    assert_eq!(f(t.motion.unwrap().wheel_rotation_bits), -1.0);
}

#[test]
fn test_gts_realistic_full_packet() {
    let mut buf = make_decrypted_buf();
    put_f32(&mut buf, OFF_ENGINE_RPM, 6800.0);
    put_f32(&mut buf, OFF_SPEED_MS, 41.7);
    buf[OFF_THROTTLE] = 230;
    buf[OFF_BRAKE] = 0;
    buf[OFF_GEAR_BYTE] = (4 << 4) | 3;
    put_f32(&mut buf, OFF_FUEL_LEVEL, 40.0);
    put_f32(&mut buf, OFF_FUEL_CAPACITY, 80.0);
    put_f32(&mut buf, OFF_WATER_TEMP, 90.0);
    put_f32(&mut buf, OFF_TIRE_TEMP_FL, 80.0);
    put_f32(&mut buf, OFF_TIRE_TEMP_FR, 82.0);
    put_f32(&mut buf, OFF_TIRE_TEMP_RL, 78.0);
    put_f32(&mut buf, OFF_TIRE_TEMP_RR, 79.0);
    buf[OFF_LAP_COUNT..OFF_LAP_COUNT + 2].copy_from_slice(&5u16.to_le_bytes());
    buf[OFF_BEST_LAP_MS..OFF_BEST_LAP_MS + 4].copy_from_slice(&85_000i32.to_le_bytes());
    buf[OFF_LAST_LAP_MS..OFF_LAST_LAP_MS + 4].copy_from_slice(&86_500i32.to_le_bytes());
    buf[OFF_MAX_ALERT_RPM..OFF_MAX_ALERT_RPM + 2].copy_from_slice(&7500u16.to_le_bytes());
    buf[OFF_CAR_CODE..OFF_CAR_CODE + 4].copy_from_slice(&999i32.to_le_bytes());
    let t = parse_decrypted(&buf).unwrap();
    assert!((f(t.rpm_bits) - 6800.0).abs() < 0.01);
    assert!((f(t.speed_bits) - 41.7).abs() < 0.01);
    assert_eq!(t.throttle_raw, 230);
    assert_eq!(t.brake_raw, 0);
    assert_eq!(t.gear, 3);
    assert_eq!(f(t.fuel_level_bits) / f(t.fuel_capacity_bits), 0.5);
    assert_eq!(f(t.water_temp_bits), 90.0);
    assert_eq!(t.lap_count, 5);
    assert_eq!(t.best_lap_ms, 85_000);
    assert_eq!(t.last_lap_ms, 86_500);
    assert_eq!(t.max_alert_rpm, 7500);
    assert_eq!(t.car_code, 999);
}

#[test]
fn test_gts_nan_fields_handled() {
    let mut buf = make_decrypted_buf();
    put_f32(&mut buf, OFF_ENGINE_RPM, f32::NAN);
    put_f32(&mut buf, OFF_SPEED_MS, f32::INFINITY);
    let t = parse_decrypted(&buf).unwrap();
    assert_eq!(t.rpm_bits, 0);
    assert_eq!(t.speed_bits, 0);
}

#[test]
fn test_default_and_new_equivalent() {
    let a = GranTurismo7SportsAdapter::default();
    let b = GranTurismo7SportsAdapter::new();
    assert_eq!(a.recv_port, b.recv_port);
    assert_eq!(a.update_rate_ms, b.update_rate_ms);
}
