use telemetry_adapters::error::TelemetryError;
use telemetry_adapters::gran_turismo_7::{
    decrypt_and_parse, decrypt_packet, detect_packet_type, gt7_key_bytes, heartbeat_due, parse_decrypted,
    parse_decrypted_ext, salsa20_block, salsa20_decrypt, GranTurismo7Adapter, Gt7PacketType, FLAG_ASM_ACTIVE,
    FLAG_PAUSED, FLAG_REV_LIMIT, FLAG_TCS_ACTIVE, GT7_RECV_PORT, GT7_SEND_PORT, MAGIC, MAX_PACKET_SIZE,
    OFF_BEST_LAP_MS, OFF_BRAKE, OFF_CAR_CODE, OFF_CAR_TYPE_BYTE3, OFF_ENERGY_RECOVERY, OFF_ENGINE_RPM,
    OFF_FLAGS, OFF_FUEL_CAPACITY, OFF_FUEL_LEVEL, OFF_GEAR_BYTE, OFF_HEAVE, OFF_LAP_COUNT, OFF_LAST_LAP_MS,
    OFF_MAGIC, OFF_MAX_ALERT_RPM, OFF_SPEED_MS, OFF_SURGE, OFF_SWAY, OFF_THROTTLE, OFF_TIRE_TEMP_FL,
    OFF_TIRE_TEMP_FR, OFF_TIRE_TEMP_RL, OFF_TIRE_TEMP_RR, OFF_WATER_TEMP, OFF_WHEEL_ROTATION, PACKET_SIZE,
    PACKET_SIZE_TYPE2, PACKET_SIZE_TYPE3, XOR_KEY_TYPE1, XOR_KEY_TYPE2, XOR_KEY_TYPE3,
};

fn make_decrypted_buf() -> [u8; PACKET_SIZE] {
    let mut buf = [0u8; PACKET_SIZE];
    buf[OFF_MAGIC..OFF_MAGIC + 4].copy_from_slice(&MAGIC.to_le_bytes());
    buf
}

fn make_type2_buf() -> Vec<u8> {
    let mut buf = vec![0u8; PACKET_SIZE_TYPE2];
    buf[OFF_MAGIC..OFF_MAGIC + 4].copy_from_slice(&MAGIC.to_le_bytes());
    buf
}

fn make_type3_buf() -> Vec<u8> {
    let mut buf = vec![0u8; PACKET_SIZE_TYPE3];
    buf[OFF_MAGIC..OFF_MAGIC + 4].copy_from_slice(&MAGIC.to_le_bytes());
    buf
}

fn put_f32(buf: &mut [u8], off: usize, v: f32) {
    buf[off..off + 4].copy_from_slice(&v.to_le_bytes());
}

fn f(bits: u32) -> f32 {
    f32::from_bits(bits)
}

fn salsa20_xor(buf: &mut [u8; PACKET_SIZE]) {
    salsa20_decrypt(buf, XOR_KEY_TYPE1);
}

/// Encrypts a plaintext packet so that `decrypt_packet` gives it back: the
/// keystream is selected by the nonce seed `seed` that the ciphertext carries.
fn encrypt(plain: &[u8], xor_key: u32, seed: [u8; 4]) -> Vec<u8> {
    let mut buf = plain.to_vec();
    buf[0x40..0x44].copy_from_slice(&seed);
    salsa20_decrypt(&mut buf, xor_key);
    buf[0x40..0x44].copy_from_slice(&seed);
    buf
}

#[test]
fn test_short_packet_returns_err() {
    let short = vec![0u8; 100];
    assert_eq!(decrypt_and_parse(&short), Err(TelemetryError::TooShort { needed: 296, actual: 100 }));
}

#[test]
fn test_wrong_magic_returns_err() {
    let buf = [0u8; PACKET_SIZE];
    assert_eq!(decrypt_and_parse(&buf), Err(TelemetryError::BadMagic));
}

#[test]
fn test_rpm_extraction() {
    let mut buf = make_decrypted_buf();
    put_f32(&mut buf, OFF_ENGINE_RPM, 6500.0);
    let t = parse_decrypted(&buf).unwrap();
    assert!((f(t.rpm_bits) - 6500.0).abs() < 0.01);
}

#[test]
fn test_speed_extraction() {
    let mut buf = make_decrypted_buf();
    put_f32(&mut buf, OFF_SPEED_MS, 33.33);
    let t = parse_decrypted(&buf).unwrap();
    assert!((f(t.speed_bits) - 33.33).abs() < 0.001);
}

#[test]
fn test_gear_extraction_low_nibble() {
    let mut buf = make_decrypted_buf();
    buf[OFF_GEAR_BYTE] = (4 << 4) | 3;
    assert_eq!(parse_decrypted(&buf).unwrap().gear, 3);
}

#[test]
fn test_neutral_gear() {
    let mut buf = make_decrypted_buf();
    buf[OFF_GEAR_BYTE] = 0x00;
    assert_eq!(parse_decrypted(&buf).unwrap().gear, 0);
}

#[test]
fn test_throttle_brake_normalisation() {
    let mut buf = make_decrypted_buf();
    buf[OFF_THROTTLE] = 128;
    buf[OFF_BRAKE] = 255;
    let t = parse_decrypted(&buf).unwrap();
    assert_eq!(t.throttle_raw, 128);
    assert_eq!(t.brake_raw, 255);
}

#[test]
fn test_fuel_percentage() {
    let mut buf = make_decrypted_buf();
    put_f32(&mut buf, OFF_FUEL_LEVEL, 25.0);
    put_f32(&mut buf, OFF_FUEL_CAPACITY, 50.0);
    let t = parse_decrypted(&buf).unwrap();
    assert_eq!(f(t.fuel_level_bits) / f(t.fuel_capacity_bits), 0.5);
}

#[test]
fn test_lap_count() {
    let mut buf = make_decrypted_buf();
    buf[OFF_LAP_COUNT..OFF_LAP_COUNT + 2].copy_from_slice(&5u16.to_le_bytes());
    assert_eq!(parse_decrypted(&buf).unwrap().lap_count, 5);
}

#[test]
fn test_best_lap_time_ms_conversion() {
    let mut buf = make_decrypted_buf();
    buf[OFF_BEST_LAP_MS..OFF_BEST_LAP_MS + 4].copy_from_slice(&83_456i32.to_le_bytes());
    assert_eq!(parse_decrypted(&buf).unwrap().best_lap_ms, 83_456);
}

#[test]
fn test_no_best_lap_when_minus_one() {
    let mut buf = make_decrypted_buf();
    buf[OFF_BEST_LAP_MS..OFF_BEST_LAP_MS + 4].copy_from_slice(&(-1i32).to_le_bytes());
    assert_eq!(parse_decrypted(&buf).unwrap().best_lap_ms, -1);
}

#[test]
fn test_tcs_flag_mapped() {
    let mut buf = make_decrypted_buf();
    buf[OFF_FLAGS..OFF_FLAGS + 2].copy_from_slice(&FLAG_TCS_ACTIVE.to_le_bytes());
    assert!(parse_decrypted(&buf).unwrap().traction_control);
}

#[test]
fn test_asm_flag_mapped() {
    let mut buf = make_decrypted_buf();
    buf[OFF_FLAGS..OFF_FLAGS + 2].copy_from_slice(&FLAG_ASM_ACTIVE.to_le_bytes());
    assert!(parse_decrypted(&buf).unwrap().asm_active);
}

#[test]
fn test_car_code_to_car_id() {
    let mut buf = make_decrypted_buf();
    buf[OFF_CAR_CODE..OFF_CAR_CODE + 4].copy_from_slice(&42i32.to_le_bytes());
    assert_eq!(parse_decrypted(&buf).unwrap().car_code, 42);
}

#[test]
fn test_zero_car_code_gives_no_car_id() {
    let buf = make_decrypted_buf();
    assert_eq!(parse_decrypted(&buf).unwrap().car_code, 0);
}

#[test]
fn test_tire_temps_clamped() {
    let mut buf = make_decrypted_buf();
    put_f32(&mut buf, OFF_TIRE_TEMP_FL, 90.0);
    put_f32(&mut buf, OFF_TIRE_TEMP_FR, 95.5);
    put_f32(&mut buf, OFF_TIRE_TEMP_RL, 88.0);
    put_f32(&mut buf, OFF_TIRE_TEMP_RR, 92.0);
    let t = parse_decrypted(&buf).unwrap();
    assert_eq!(f(t.tire_temp_fl_bits), 90.0);
    assert_eq!(f(t.tire_temp_fr_bits), 95.5);
    assert_eq!(f(t.tire_temp_rl_bits), 88.0);
    assert_eq!(f(t.tire_temp_rr_bits), 92.0);
}

#[test]
fn test_salsa20_block_is_deterministic() {
    let nonce = [0u8; 8];
    let key = gt7_key_bytes();
    assert_eq!(salsa20_block(&key, &nonce, 0), salsa20_block(&key, &nonce, 0));
}

#[test]
fn test_salsa20_different_counters_differ() {
    let nonce = [0u8; 8];
    let key = gt7_key_bytes();
    assert_ne!(salsa20_block(&key, &nonce, 0), salsa20_block(&key, &nonce, 1));
}

#[test]
fn salsa20_block_matches_reference_vector() {
    // Salsa20/20, all-zero 32-byte key and nonce, block 0: the published
    // first keystream bytes.
    let block = salsa20_block(&[0u8; 32], &[0u8; 8], 0);
    assert_eq!(&block[..8], &[0x9a, 0x97, 0xf6, 0x5b, 0x9b, 0x4c, 0x72, 0x1b]);
}

#[test]
fn gt7_key_is_the_interface_string() {
    assert_eq!(&gt7_key_bytes(), b"Simulator Interface Packet GT7 v");
}

#[test]
fn test_salsa20_xor_is_deterministic() {
    let mut buf_a = [0u8; PACKET_SIZE];
    for (i, b) in buf_a.iter_mut().enumerate() {
        *b = (i & 0xFF) as u8;
    }
    let mut buf_b = buf_a;
    salsa20_xor(&mut buf_a);
    salsa20_xor(&mut buf_b);
    assert_eq!(buf_a, buf_b);
}

#[test]
fn test_salsa20_xor_changes_data() {
    let mut buf = [0u8; PACKET_SIZE];
    let original = buf;
    salsa20_xor(&mut buf);
    assert_ne!(buf, original);
}

#[test]
fn gran_turismo_7_test_adapter_game_id() {
    assert_eq!(GranTurismo7Adapter::new().game_id(), "gran_turismo_7");
}

#[test]
fn gran_turismo_7_test_adapter_update_rate() {
    assert_eq!(GranTurismo7Adapter::new().expected_update_rate_ms(), 17);
}

#[test]
fn gran_turismo_7_test_adapter_is_game_running() {
    assert!(!GranTurismo7Adapter::new().is_game_running());
}

#[test]
fn gran_turismo_7_test_normalize_short_data_returns_err() {
    assert!(GranTurismo7Adapter::new().normalize(&[0u8; 10]).is_err());
}

#[test]
fn gran_turismo_7_test_with_port_override() {
    let adapter = GranTurismo7Adapter::new().with_port(12345);
    assert_eq!(adapter.recv_port, 12345);
}

#[test]
fn test_type2_wheel_rotation() {
    let mut buf = make_type2_buf();
    put_f32(&mut buf, OFF_WHEEL_ROTATION, 1.5);
    let t = parse_decrypted_ext(&buf).unwrap();
    assert_eq!(f(t.motion.unwrap().wheel_rotation_bits), 1.5);
}

#[test]
fn test_type2_motion_fields() {
    let mut buf = make_type2_buf();
    put_f32(&mut buf, OFF_SWAY, 0.3);
    put_f32(&mut buf, OFF_HEAVE, -0.1);
    put_f32(&mut buf, OFF_SURGE, 0.8);
    let m = parse_decrypted_ext(&buf).unwrap().motion.unwrap();
    assert_eq!(f(m.sway_bits), 0.3);
    assert_eq!(f(m.heave_bits), -0.1);
    assert_eq!(f(m.surge_bits), 0.8);
}

#[test]
fn test_type2_standard_fields_still_parsed() {
    let mut buf = make_type2_buf();
    put_f32(&mut buf, OFF_ENGINE_RPM, 7000.0);
    let t = parse_decrypted_ext(&buf).unwrap();
    assert!((f(t.rpm_bits) - 7000.0).abs() < 0.01);
    assert!(t.energy.is_none());
}

#[test]
fn test_type3_energy_recovery() {
    let mut buf = make_type3_buf();
    put_f32(&mut buf, OFF_ENERGY_RECOVERY, 42.5);
    let e = parse_decrypted_ext(&buf).unwrap().energy.unwrap();
    assert_eq!(f(e.energy_recovery_bits), 42.5);
}

#[test]
fn test_type3_car_type_electric() {
    let mut buf = make_type3_buf();
    buf[OFF_CAR_TYPE_BYTE3] = 4;
    assert_eq!(parse_decrypted_ext(&buf).unwrap().energy.unwrap().car_type, 4);
}

#[test]
fn test_type3_includes_type2_fields() {
    let mut buf = make_type3_buf();
    put_f32(&mut buf, OFF_WHEEL_ROTATION, -0.5);
    put_f32(&mut buf, OFF_SURGE, 1.2);
    let m = parse_decrypted_ext(&buf).unwrap().motion.unwrap();
    assert_eq!(f(m.wheel_rotation_bits), -0.5);
    assert_eq!(f(m.surge_bits), 1.2);
}

#[test]
fn test_standard_packet_has_no_extended_fields() {
    let buf = make_decrypted_buf();
    let t = parse_decrypted(&buf).unwrap();
    assert!(t.motion.is_none());
    assert!(t.energy.is_none());
}

#[test]
fn test_detect_packet_type_values() {
    assert_eq!(detect_packet_type(296), Some(Gt7PacketType::Type1));
    assert_eq!(detect_packet_type(316), Some(Gt7PacketType::Type2));
    assert_eq!(detect_packet_type(344), Some(Gt7PacketType::Type3));
    assert_eq!(detect_packet_type(100), None);
    assert_eq!(detect_packet_type(300), None);
}

#[test]
fn test_packet_type_constants() {
    assert_eq!(Gt7PacketType::Type1.heartbeat(), b"A");
    assert_eq!(Gt7PacketType::Type2.heartbeat(), b"B");
    assert_eq!(Gt7PacketType::Type3.heartbeat(), b"~");
    assert_eq!(Gt7PacketType::Type1.expected_size(), 296);
    assert_eq!(Gt7PacketType::Type2.expected_size(), 316);
    assert_eq!(Gt7PacketType::Type3.expected_size(), 344);
    assert_eq!(Gt7PacketType::Type1.xor_key(), 0xDEAD_BEAF);
    assert_eq!(Gt7PacketType::Type2.xor_key(), 0xDEAD_BEEF);
    assert_eq!(Gt7PacketType::Type3.xor_key(), 0x55FA_BB4F);
}

#[test]
fn test_adapter_default_packet_type() {
    let adapter = GranTurismo7Adapter::new();
    assert_eq!(adapter.packet_type, Gt7PacketType::Type3);
    assert_eq!(adapter.heartbeat_payload(), b"~");
}

#[test]
fn test_adapter_with_packet_type_override() {
    let adapter = GranTurismo7Adapter::new().with_packet_type(Gt7PacketType::Type1);
    assert_eq!(adapter.packet_type, Gt7PacketType::Type1);
    assert_eq!(adapter.heartbeat_payload(), b"A");
}

#[test]
fn test_salsa20_decrypt_different_xor_keys_differ() {
    let mut buf1 = vec![0u8; PACKET_SIZE_TYPE2];
    for (i, b) in buf1.iter_mut().enumerate() {
        *b = (i & 0xFF) as u8;
    }
    let mut buf2 = buf1.clone();
    salsa20_decrypt(&mut buf1, XOR_KEY_TYPE1);
    salsa20_decrypt(&mut buf2, XOR_KEY_TYPE2);
    assert_ne!(buf1, buf2);
}

#[test]
fn test_salsa20_round_trip() {
    let mut buf = [0u8; PACKET_SIZE];
    for (i, b) in buf.iter_mut().enumerate() {
        *b = (i & 0xFF) as u8;
    }
    let original = buf;
    let iv_bytes: [u8; 4] = [buf[0x40], buf[0x41], buf[0x42], buf[0x43]];
    salsa20_xor(&mut buf);
    assert_ne!(buf, original);
    buf[0x40..0x44].copy_from_slice(&iv_bytes);
    salsa20_xor(&mut buf);
    for i in 0..PACKET_SIZE {
        if (0x40..0x44).contains(&i) {
            continue;
        }
        assert_eq!(buf[i], original[i], "mismatch at byte {i}");
    }
}

#[test]
fn test_salsa20_nonce_derived_from_iv_offset() {
    let mut buf_a = [0u8; PACKET_SIZE];
    buf_a[0x40] = 0x01;
    let mut buf_b = [0u8; PACKET_SIZE];
    buf_b[0x40] = 0x02;
    salsa20_xor(&mut buf_a);
    salsa20_xor(&mut buf_b);
    assert_ne!(buf_a, buf_b);
}

#[test]
fn test_salsa20_decrypt_consistency_type2() {
    let mut buf_a = vec![0u8; PACKET_SIZE_TYPE2];
    for (i, b) in buf_a.iter_mut().enumerate() {
        *b = ((i * 7) & 0xFF) as u8;
    }
    let mut buf_b = buf_a.clone();
    salsa20_decrypt(&mut buf_a, XOR_KEY_TYPE2);
    salsa20_decrypt(&mut buf_b, XOR_KEY_TYPE2);
    assert_eq!(buf_a, buf_b);
}

#[test]
fn test_salsa20_decrypt_consistency_type3() {
    let mut buf_a = vec![0u8; PACKET_SIZE_TYPE3];
    for (i, b) in buf_a.iter_mut().enumerate() {
        *b = ((i * 13) & 0xFF) as u8;
    }
    let mut buf_b = buf_a.clone();
    salsa20_decrypt(&mut buf_a, XOR_KEY_TYPE3);
    salsa20_decrypt(&mut buf_b, XOR_KEY_TYPE3);
    assert_eq!(buf_a, buf_b);
}

#[test]
fn test_water_temp_extraction() {
    let mut buf = make_decrypted_buf();
    put_f32(&mut buf, OFF_WATER_TEMP, 85.5);
    assert_eq!(f(parse_decrypted(&buf).unwrap().water_temp_bits), 85.5);
}

#[test]
fn test_max_rpm_from_alert_rpm() {
    let mut buf = make_decrypted_buf();
    buf[OFF_MAX_ALERT_RPM..OFF_MAX_ALERT_RPM + 2].copy_from_slice(&8500u16.to_le_bytes());
    assert_eq!(parse_decrypted(&buf).unwrap().max_alert_rpm, 8500);
}

#[test]
fn test_last_lap_time_conversion() {
    let mut buf = make_decrypted_buf();
    buf[OFF_LAST_LAP_MS..OFF_LAST_LAP_MS + 4].copy_from_slice(&105_678i32.to_le_bytes());
    assert_eq!(parse_decrypted(&buf).unwrap().last_lap_ms, 105_678);
}

#[test]
fn test_last_lap_negative_gives_zero() {
    let mut buf = make_decrypted_buf();
    buf[OFF_LAST_LAP_MS..OFF_LAST_LAP_MS + 4].copy_from_slice(&(-1i32).to_le_bytes());
    assert_eq!(parse_decrypted(&buf).unwrap().last_lap_ms, -1);
}

#[test]
fn test_nan_speed_gives_zero() {
    let mut buf = make_decrypted_buf();
    put_f32(&mut buf, OFF_SPEED_MS, f32::NAN);
    assert_eq!(parse_decrypted(&buf).unwrap().speed_bits, 0);
}

#[test]
fn test_nan_rpm_gives_zero() {
    let mut buf = make_decrypted_buf();
    put_f32(&mut buf, OFF_ENGINE_RPM, f32::NAN);
    assert_eq!(parse_decrypted(&buf).unwrap().rpm_bits, 0);
}

#[test]
fn test_infinity_rpm_gives_zero() {
    let mut buf = make_decrypted_buf();
    put_f32(&mut buf, OFF_ENGINE_RPM, f32::INFINITY);
    assert_eq!(parse_decrypted(&buf).unwrap().rpm_bits, 0);
}

#[test]
fn test_neg_infinity_tire_temp_clamped() {
    let mut buf = make_decrypted_buf();
    put_f32(&mut buf, OFF_TIRE_TEMP_FL, f32::NEG_INFINITY);
    assert_eq!(parse_decrypted(&buf).unwrap().tire_temp_fl_bits, 0);
}

#[test]
fn test_rev_limit_flag() {
    let mut buf = make_decrypted_buf();
    buf[OFF_FLAGS..OFF_FLAGS + 2].copy_from_slice(&FLAG_REV_LIMIT.to_le_bytes());
    let t = parse_decrypted(&buf).unwrap();
    assert!(t.rev_limit);
    assert!(!t.traction_control);
    assert!(!t.asm_active);
}

#[test]
fn test_paused_flag() {
    let mut buf = make_decrypted_buf();
    buf[OFF_FLAGS..OFF_FLAGS + 2].copy_from_slice(&FLAG_PAUSED.to_le_bytes());
    assert!(parse_decrypted(&buf).unwrap().paused);
}

#[test]
fn test_multiple_flags_combined() {
    let mut buf = make_decrypted_buf();
    let flags: u16 = FLAG_TCS_ACTIVE | FLAG_ASM_ACTIVE | FLAG_REV_LIMIT | FLAG_PAUSED;
    buf[OFF_FLAGS..OFF_FLAGS + 2].copy_from_slice(&flags.to_le_bytes());
    let t = parse_decrypted(&buf).unwrap();
    assert!(t.traction_control);
    assert!(t.asm_active);
    assert!(t.rev_limit);
    assert!(t.paused);
    assert_eq!(t.flags_raw, flags);
}

#[test]
fn test_no_flags_set() {
    let t = parse_decrypted(&make_decrypted_buf()).unwrap();
    assert!(!t.traction_control);
    assert!(!t.asm_active);
    assert!(!t.rev_limit);
    assert!(!t.paused);
}

#[test]
fn test_gear_max_valid() {
    let mut buf = make_decrypted_buf();
    buf[OFF_GEAR_BYTE] = 0x08;
    assert_eq!(parse_decrypted(&buf).unwrap().gear, 8);
}

#[test]
fn test_gear_invalid_nibble_maps_to_neutral() {
    let mut buf = make_decrypted_buf();
    buf[OFF_GEAR_BYTE] = 0x0F;
    assert_eq!(parse_decrypted(&buf).unwrap().gear, 0);
}

#[test]
fn test_gear_suggested_in_high_nibble_ignored() {
    let mut buf = make_decrypted_buf();
    buf[OFF_GEAR_BYTE] = (7 << 4) | 2;
    assert_eq!(parse_decrypted(&buf).unwrap().gear, 2);
}

#[test]
fn test_throttle_zero_and_max() {
    let mut buf = make_decrypted_buf();
    let t = parse_decrypted(&buf).unwrap();
    assert_eq!(t.throttle_raw, 0);
    assert_eq!(t.brake_raw, 0);
    buf[OFF_THROTTLE] = 255;
    buf[OFF_BRAKE] = 255;
    let t2 = parse_decrypted(&buf).unwrap();
    assert_eq!(t2.throttle_raw, 255);
    assert_eq!(t2.brake_raw, 255);
}

#[test]
fn gran_turismo_7_test_empty_packet_returns_err() {
    assert!(decrypt_and_parse(&[]).is_err());
}

#[test]
fn test_packet_one_byte_short_of_type1() {
    let data = vec![0u8; PACKET_SIZE - 1];
    assert!(decrypt_and_parse(&data).is_err());
}

#[test]
fn test_odd_size_between_type1_and_type2() {
    let data = vec![0u8; 300];
    let _ = decrypt_and_parse(&data);
}

#[test]
fn test_parse_decrypted_ext_too_short() {
    let short = vec![0u8; 100];
    assert!(parse_decrypted_ext(&short).is_err());
}

#[test]
fn test_realistic_full_packet() {
    let mut buf = make_decrypted_buf();
    put_f32(&mut buf, OFF_ENGINE_RPM, 7200.0);
    put_f32(&mut buf, OFF_SPEED_MS, 55.5);
    buf[OFF_THROTTLE] = 204;
    buf[OFF_BRAKE] = 0;
    buf[OFF_GEAR_BYTE] = (5 << 4) | 4;
    put_f32(&mut buf, OFF_FUEL_LEVEL, 30.0);
    put_f32(&mut buf, OFF_FUEL_CAPACITY, 60.0);
    put_f32(&mut buf, OFF_WATER_TEMP, 92.0);
    put_f32(&mut buf, OFF_TIRE_TEMP_FL, 85.0);
    put_f32(&mut buf, OFF_TIRE_TEMP_FR, 87.0);
    put_f32(&mut buf, OFF_TIRE_TEMP_RL, 82.0);
    put_f32(&mut buf, OFF_TIRE_TEMP_RR, 84.0);
    buf[OFF_LAP_COUNT..OFF_LAP_COUNT + 2].copy_from_slice(&3u16.to_le_bytes());
    buf[OFF_BEST_LAP_MS..OFF_BEST_LAP_MS + 4].copy_from_slice(&92_345i32.to_le_bytes());
    buf[OFF_LAST_LAP_MS..OFF_LAST_LAP_MS + 4].copy_from_slice(&93_100i32.to_le_bytes());
    buf[OFF_MAX_ALERT_RPM..OFF_MAX_ALERT_RPM + 2].copy_from_slice(&8000u16.to_le_bytes());
    buf[OFF_FLAGS..OFF_FLAGS + 2].copy_from_slice(&FLAG_TCS_ACTIVE.to_le_bytes());
    buf[OFF_CAR_CODE..OFF_CAR_CODE + 4].copy_from_slice(&1234i32.to_le_bytes());
    let t = parse_decrypted(&buf).unwrap();
    assert!((f(t.rpm_bits) - 7200.0).abs() < 0.01);
    assert!((f(t.speed_bits) - 55.5).abs() < 0.01);
    assert_eq!(t.throttle_raw, 204);
    assert_eq!(t.brake_raw, 0);
    assert_eq!(t.gear, 4);
    assert_eq!(f(t.fuel_level_bits), 30.0);
    assert_eq!(f(t.fuel_capacity_bits), 60.0);
    assert_eq!(f(t.water_temp_bits), 92.0);
    assert_eq!(
        [f(t.tire_temp_fl_bits), f(t.tire_temp_fr_bits), f(t.tire_temp_rl_bits), f(t.tire_temp_rr_bits)],
        [85.0, 87.0, 82.0, 84.0]
    );
    assert_eq!(t.lap_count, 3);
    assert_eq!(t.best_lap_ms, 92_345);
    assert_eq!(t.last_lap_ms, 93_100);
    assert_eq!(t.max_alert_rpm, 8000);
    assert!(t.traction_control);
    assert_eq!(t.car_code, 1234);
}

#[test]
fn test_realistic_type3_full_packet() {
    let mut buf = make_type3_buf();
    put_f32(&mut buf, OFF_ENGINE_RPM, 6000.0);
    buf[OFF_THROTTLE] = 255;
    buf[OFF_GEAR_BYTE] = 3;
    put_f32(&mut buf, OFF_WHEEL_ROTATION, -0.25);
    put_f32(&mut buf, OFF_SWAY, 0.15);
    put_f32(&mut buf, OFF_HEAVE, -0.05);
    put_f32(&mut buf, OFF_SURGE, 0.9);
    buf[OFF_CAR_TYPE_BYTE3] = 4;
    put_f32(&mut buf, OFF_ENERGY_RECOVERY, 75.3);
    let t = parse_decrypted_ext(&buf).unwrap();
    assert!((f(t.rpm_bits) - 6000.0).abs() < 0.01);
    assert_eq!(t.throttle_raw, 255);
    assert_eq!(t.gear, 3);
    let m = t.motion.unwrap();
    assert_eq!(f(m.wheel_rotation_bits), -0.25);
    assert_eq!(f(m.sway_bits), 0.15);
    assert_eq!(f(m.heave_bits), -0.05);
    assert_eq!(f(m.surge_bits), 0.9);
    let e = t.energy.unwrap();
    assert_eq!(e.car_type, 4);
    assert_eq!(f(e.energy_recovery_bits), 75.3);
}

#[test]
fn test_type2_non_finite_motion_gives_zero() {
    let mut buf = make_type2_buf();
    put_f32(&mut buf, OFF_SWAY, f32::NAN);
    put_f32(&mut buf, OFF_HEAVE, f32::INFINITY);
    put_f32(&mut buf, OFF_SURGE, f32::NEG_INFINITY);
    let m = parse_decrypted_ext(&buf).unwrap().motion.unwrap();
    assert_eq!(m.sway_bits, 0);
    assert_eq!(m.heave_bits, 0);
    assert_eq!(m.surge_bits, 0);
}

#[test]
fn test_type3_zero_energy_recovery() {
    let mut buf = make_type3_buf();
    put_f32(&mut buf, OFF_ENERGY_RECOVERY, 0.0);
    assert_eq!(f(parse_decrypted_ext(&buf).unwrap().energy.unwrap().energy_recovery_bits), 0.0);
}

#[test]
fn test_type3_all_car_type_values() {
    for car_type in [0u8, 1, 2, 3, 4, 255] {
        let mut buf = make_type3_buf();
        buf[OFF_CAR_TYPE_BYTE3] = car_type;
        assert_eq!(parse_decrypted_ext(&buf).unwrap().energy.unwrap().car_type, car_type);
    }
}

#[test]
fn test_gt7_port_constants() {
    assert_eq!(GT7_RECV_PORT, 33740);
    assert_eq!(GT7_SEND_PORT, 33739);
}

#[test]
fn test_magic_constant() {
    assert_eq!(MAGIC, 0x4737_5330);
}

#[test]
fn test_packet_size_constants() {
    assert_eq!(PACKET_SIZE, 296);
    assert_eq!(PACKET_SIZE_TYPE2, 316);
    assert_eq!(PACKET_SIZE_TYPE3, 344);
    assert_eq!(MAX_PACKET_SIZE, PACKET_SIZE_TYPE3);
}

#[test]
fn test_adapter_default_impl() {
    let a = GranTurismo7Adapter::default();
    let b = GranTurismo7Adapter::new();
    assert_eq!(a.recv_port, b.recv_port);
    assert_eq!(a.update_rate_ms, b.update_rate_ms);
    assert_eq!(a.packet_type, b.packet_type);
}

#[test]
fn encrypted_packet_decrypts_and_parses() {
    let mut plain = make_decrypted_buf();
    put_f32(&mut plain, OFF_ENGINE_RPM, 4321.0);
    plain[OFF_GEAR_BYTE] = 5;
    let cipher = encrypt(&plain, XOR_KEY_TYPE1, [1, 2, 3, 4]);
    let t = decrypt_and_parse(&cipher).unwrap();
    assert_eq!(f(t.rpm_bits), 4321.0);
    assert_eq!(t.gear, 5);
    let dec = decrypt_packet(&cipher).unwrap();
    assert_eq!(&dec[..0x40], &plain[..0x40]);
    assert_eq!(&dec[0x44..], &plain[0x44..]);
}

#[test]
fn encrypted_type3_packet_uses_type3_key() {
    let mut plain = make_type3_buf();
    plain[OFF_CAR_TYPE_BYTE3] = 4;
    let cipher = encrypt(&plain, XOR_KEY_TYPE3, [9, 9, 9, 9]);
    let t = GranTurismo7Adapter::new().normalize(&cipher).unwrap();
    assert_eq!(t.energy.unwrap().car_type, 4);
    let wrong = encrypt(&plain, XOR_KEY_TYPE1, [9, 9, 9, 9]);
    assert_eq!(decrypt_and_parse(&wrong), Err(TelemetryError::BadMagic));
}

#[test]
fn oversized_packet_decrypts_as_type1_prefix() {
    let plain = make_decrypted_buf();
    let mut cipher = encrypt(&plain, XOR_KEY_TYPE1, [7, 0, 0, 0]);
    cipher.extend_from_slice(&[0xAA; 4]);
    let dec = decrypt_packet(&cipher).unwrap();
    assert_eq!(dec.len(), PACKET_SIZE);
}

#[test]
fn heartbeat_due_after_interval() {
    assert!(heartbeat_due(0, 100_000_000));
    assert!(!heartbeat_due(0, 99_999_999));
    assert!(!heartbeat_due(500, 100));
}
