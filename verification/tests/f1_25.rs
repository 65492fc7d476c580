use telemetry_adapters::error::TelemetryError;
use telemetry_adapters::f1_25::{
    build_car_status_packet, build_car_telemetry_packet, build_header_bytes, build_session_packet, frame_flags,
    parse_car_status, parse_car_telemetry, parse_header, parse_session_data, track_name_from_id,
    tyre_compound_name, ByteReader, CarStatusData, F125State, F1_25Adapter, PACKET_ID_CAR_STATUS,
    PACKET_ID_CAR_TELEMETRY, PACKET_ID_SESSION,
};

fn b(v: f32) -> u32 {
    v.to_bits()
}

fn bits4(v: [f32; 4]) -> [u32; 4] {
    [v[0].to_bits(), v[1].to_bits(), v[2].to_bits(), v[3].to_bits()]
}

fn f(bits: u32) -> f32 {
    f32::from_bits(bits)
}

#[test]
fn parse_header_extracts_packet_id_and_player_index() {
    let raw = build_header_bytes(2025, 6, 3);
    let header = parse_header(&raw).unwrap();
    assert_eq!(header.packet_format, 2025);
    assert_eq!(header.packet_id, 6);
    assert_eq!(header.player_car_index, 3);
}

#[test]
fn parse_header_rejects_short_buffer() {
    assert_eq!(parse_header(&[0u8; 10]).unwrap_err(), TelemetryError::TooShort { needed: 29, actual: 10 });
}

#[test]
fn process_packet_rejects_wrong_format() {
    let raw = build_header_bytes(2024, PACKET_ID_CAR_TELEMETRY, 0);
    let mut state = F125State::new();
    let result = F1_25Adapter::process_packet(&mut state, &raw);
    let err = result.unwrap_err();
    assert_eq!(err, TelemetryError::UnexpectedFormat(2024));
}

#[test]
fn car_telemetry_round_trip_speed_gear_rpm() {
    let raw = build_car_telemetry_packet(0, 200, 6, 14000, b(0.85), b(0.0), 1, bits4([24.5, 24.5, 24.0, 24.0]));
    let telem = parse_car_telemetry(&raw, 0).unwrap();
    assert_eq!(telem.speed_kmh, 200);
    assert_eq!(telem.gear, 6);
    assert_eq!(telem.engine_rpm, 14000);
    assert!((f(telem.throttle_bits) - 0.85).abs() < 1e-5);
    assert_eq!(telem.drs, 1);
    assert!((f(telem.tyres_pressure_bits[2]) - 24.0).abs() < 1e-4);
}

#[test]
fn car_telemetry_reverse_gear_is_negative_one() {
    let raw = build_car_telemetry_packet(0, 0, -1, 0, b(0.0), b(0.0), 0, bits4([20.0; 4]));
    assert_eq!(parse_car_telemetry(&raw, 0).unwrap().gear, -1);
}

#[test]
fn car_telemetry_rejects_short_packet() {
    assert!(parse_car_telemetry(&[0u8; 100], 0).is_err());
}

#[test]
fn car_telemetry_rejects_out_of_range_player_index() {
    let raw = build_car_telemetry_packet(0, 100, 3, 8000, b(0.5), b(0.0), 0, bits4([20.0; 4]));
    assert_eq!(parse_car_telemetry(&raw, 22).unwrap_err(), TelemetryError::PlayerIndexOutOfRange(22));
}

#[test]
fn car_telemetry_entry_of_other_player() {
    let raw = build_car_telemetry_packet(5, 123, 4, 9000, b(0.5), b(0.25), 0, bits4([20.0; 4]));
    assert_eq!(parse_car_telemetry(&raw, 5).unwrap().speed_kmh, 123);
    assert_eq!(parse_car_telemetry(&raw, 0).unwrap().speed_kmh, 0);
}

#[test]
fn car_status_round_trip_fuel_ers_drs() {
    let raw = build_car_status_packet(0, b(25.0), b(2_500_000.0), 1, 0, 17, 15000);
    let status = parse_car_status(&raw, 0).unwrap();
    assert!((f(status.fuel_in_tank_bits) - 25.0).abs() < 1e-4);
    assert!((f(status.ers_store_energy_bits) - 2_500_000.0).abs() < 1.0);
    assert_eq!(status.drs_allowed, 1);
    assert_eq!(status.actual_tyre_compound, 17);
    assert_eq!(status.max_rpm, 15000);
}

#[test]
fn car_status_rejects_short_packet() {
    assert!(parse_car_status(&[0u8; 100], 0).is_err());
}

#[test]
fn session_packet_round_trip_track_and_temperatures() {
    let raw = build_session_packet(10, 3, 35, 28);
    let session = parse_session_data(&raw).unwrap();
    assert_eq!(session.track_id, 10);
    assert_eq!(session.session_type, 3);
    assert_eq!(session.track_temperature, 35);
    assert_eq!(session.air_temperature, 28);
}

#[test]
fn session_packet_negative_temperatures_round_trip() {
    let raw = build_session_packet(-1, 1, -5, -12);
    let session = parse_session_data(&raw).unwrap();
    assert_eq!(session.track_id, -1);
    assert_eq!(session.track_temperature, -5);
    assert_eq!(session.air_temperature, -12);
}

#[test]
fn session_packet_rejects_short_buffer() {
    assert!(parse_session_data(&[0u8; 10]).is_err());
}

#[test]
fn process_packet_emits_after_both_telemetry_and_status() {
    let mut state = F125State::new();
    let telem_pkt = build_car_telemetry_packet(0, 150, 5, 11500, b(0.7), b(0.0), 0, bits4([22.0; 4]));
    let result1 = F1_25Adapter::process_packet(&mut state, &telem_pkt).unwrap();
    assert!(result1.is_none(), "should not emit without CarStatus");
    let status_pkt = build_car_status_packet(0, b(20.0), b(3_000_000.0), 1, 0, 18, 15000);
    let frame = F1_25Adapter::process_packet(&mut state, &status_pkt).unwrap().expect("should emit after both packets");
    assert_eq!(frame.telemetry.speed_kmh, 150);
    assert_eq!(frame.telemetry.gear, 5);
    assert_eq!(frame.status.actual_tyre_compound, 18);
}

#[test]
fn process_packet_session_updates_state_but_no_emit() {
    let mut state = F125State::new();
    let session_pkt = build_session_packet(11, 3, 32, 25);
    let result = F1_25Adapter::process_packet(&mut state, &session_pkt).unwrap();
    assert!(result.is_none());
    assert_eq!(state.session.track_id, 11);
}

#[test]
fn process_packet_session_track_reflected_in_normalized() {
    let mut state = F125State::new();
    let session_pkt = build_session_packet(11, 3, 32, 25);
    F1_25Adapter::process_packet(&mut state, &session_pkt).unwrap();
    let telem_pkt = build_car_telemetry_packet(0, 100, 4, 10000, b(0.5), b(0.0), 0, bits4([21.0; 4]));
    F1_25Adapter::process_packet(&mut state, &telem_pkt).unwrap();
    let status_pkt = build_car_status_packet(0, b(15.0), b(2_000_000.0), 0, 0, 13, 14000);
    let frame = F1_25Adapter::process_packet(&mut state, &status_pkt).unwrap().expect("should emit");
    assert_eq!(frame.session.track_id, 11);
    assert_eq!(track_name_from_id(frame.session.track_id), "Monza");
}

#[test]
fn process_packet_status_before_telemetry_emits_on_telemetry() {
    let mut state = F125State::new();
    let status_pkt = build_car_status_packet(0, b(15.0), b(2_000_000.0), 0, 1, 13, 14000);
    assert!(F1_25Adapter::process_packet(&mut state, &status_pkt).unwrap().is_none());
    let telem_pkt = build_car_telemetry_packet(0, 100, 4, 10000, b(0.5), b(0.0), 0, bits4([21.0; 4]));
    let frame = F1_25Adapter::process_packet(&mut state, &telem_pkt).unwrap().expect("should emit");
    assert_eq!(frame.status.pit_limiter_status, 1);
}

#[test]
fn process_packet_unknown_id_is_ignored() {
    let mut state = F125State::new();
    let raw = build_header_bytes(2025, 99, 0);
    assert!(F1_25Adapter::process_packet(&mut state, &raw).unwrap().is_none());
}

#[test]
fn adapter_normalize_accepts_car_telemetry_packet() {
    let adapter = F1_25Adapter::new(None, None);
    let raw = build_car_telemetry_packet(0, 200, 7, 14500, b(1.0), b(0.0), 1, bits4([23.0; 4]));
    let frame = adapter.normalize(&raw).unwrap();
    assert_eq!(frame.telemetry.speed_kmh, 200);
    assert_eq!(frame.telemetry.gear, 7);
    assert_eq!(frame.telemetry.drs, 1);
    assert_eq!(frame.status, CarStatusData::default_for_normalize());
}

#[test]
fn adapter_normalize_rejects_car_status_only_packet() {
    let adapter = F1_25Adapter::new(None, None);
    let raw = build_car_status_packet(0, b(20.0), b(1_000_000.0), 1, 0, 17, 15000);
    assert_eq!(adapter.normalize(&raw).unwrap_err(), TelemetryError::IncompletePacket(PACKET_ID_CAR_STATUS));
}

#[test]
fn adapter_normalize_rejects_session_only_packet() {
    let adapter = F1_25Adapter::new(None, None);
    let raw = build_session_packet(10, 3, 30, 20);
    assert_eq!(adapter.normalize(&raw).unwrap_err(), TelemetryError::IncompletePacket(PACKET_ID_SESSION));
}

#[test]
fn adapter_normalize_rejects_short_packet() {
    let adapter = F1_25Adapter::new(None, None);
    assert!(adapter.normalize(&[0u8; 10]).is_err());
}

#[test]
fn adapter_game_id_is_f1_25() {
    assert_eq!(F1_25Adapter::new(None, None).game_id(), "f1_25");
}

#[test]
fn adapter_update_rate_is_16ms() {
    assert_eq!(F1_25Adapter::new(None, None).expected_update_rate_ms(), 16);
}

#[test]
fn f1_25_port_setting_parsed() {
    assert_eq!(F1_25Adapter::new(Some("21000"), None).bind_port, 21000);
    assert_eq!(F1_25Adapter::new(Some("nope"), None).bind_port, 20777);
    assert_eq!(F1_25Adapter::new(None, None).with_port(1234).bind_port, 1234);
}

#[test]
fn track_name_known_values() {
    assert_eq!(track_name_from_id(0), "Melbourne");
    assert_eq!(track_name_from_id(5), "Monaco");
    assert_eq!(track_name_from_id(10), "Spa");
    assert_eq!(track_name_from_id(11), "Monza");
    assert_eq!(track_name_from_id(29), "Jeddah");
    assert_eq!(track_name_from_id(32), "Losail");
}

#[test]
fn track_name_negative_returns_melbourne() {
    assert_eq!(track_name_from_id(-1), "Melbourne");
}

#[test]
fn track_name_out_of_range_returns_unknown() {
    assert_eq!(track_name_from_id(100), "Unknown");
}

#[test]
fn tyre_compound_codes() {
    assert_eq!(tyre_compound_name(16), "C5");
    assert_eq!(tyre_compound_name(17), "C4");
    assert_eq!(tyre_compound_name(18), "C3");
    assert_eq!(tyre_compound_name(7), "Intermediate");
    assert_eq!(tyre_compound_name(8), "Wet");
    assert_eq!(tyre_compound_name(0), "Unknown");
}

#[test]
fn byte_reader_u16_le() {
    let data = [0x01u8, 0x00];
    let mut r = ByteReader::new(&data);
    assert_eq!(r.u16_le().unwrap(), 1);
    assert_eq!(r.pos, 2);
}

#[test]
fn byte_reader_out_of_bounds_errors() {
    let data = [0x01u8];
    let mut r = ByteReader::new(&data);
    assert!(r.u16_le().is_err());
}

#[test]
fn byte_reader_f32_le_round_trip() {
    let val = 1.234_567_f32;
    let bytes = val.to_le_bytes();
    let mut r = ByteReader::new(&bytes);
    let recovered = f32::from_bits(r.float_bits_le().unwrap());
    assert!((recovered - val).abs() < 1e-6);
}

#[test]
fn byte_reader_arrays_and_skip() {
    let data = [1u8, 0, 2, 0, 3, 0, 9];
    let mut r = ByteReader::new(&data);
    assert_eq!(r.u16_le_array::<3>().unwrap(), [1, 2, 3]);
    assert!(r.skip(2).is_err());
    assert_eq!(r.u8().unwrap(), 9);
    let mut s = ByteReader::at(&data, 5);
    assert_eq!(s.i8().unwrap(), 0);
}

#[test]
fn byte_reader_short_array_keeps_elements_read() {
    let data = [1u8, 0, 2, 0, 3];
    let mut r = ByteReader::new(&data);
    assert!(r.u16_le_array::<3>().is_err());
    assert_eq!(r.pos, 4);
    let mut q = ByteReader::at(&data, 1);
    assert!(q.float_bits_le_array::<2>().is_err());
    assert_eq!(q.pos, 5);
}

#[test]
fn normalize_pit_limiter_sets_both_flags() {
    let raw = build_car_telemetry_packet(0, 80, 3, 6000, b(0.3), b(0.0), 0, bits4([21.0; 4]));
    let telem = parse_car_telemetry(&raw, 0).unwrap();
    let mut status = CarStatusData::default_for_normalize();
    status.pit_limiter_status = 1;
    let flags = frame_flags(&telem, &status);
    assert!(flags.pit_limiter);
    assert!(flags.in_pits);
}

#[test]
fn normalize_drs_flag_propagates_to_extended_and_flags() {
    let raw = build_car_telemetry_packet(0, 100, 5, 12000, b(1.0), b(0.0), 1, bits4([21.0; 4]));
    let telem = parse_car_telemetry(&raw, 0).unwrap();
    let mut status = CarStatusData::default_for_normalize();
    status.drs_allowed = 1;
    let flags = frame_flags(&telem, &status);
    assert!(flags.drs_active);
    assert!(flags.drs_available);
    let raw_off = build_car_telemetry_packet(0, 100, 5, 12000, b(1.0), b(0.0), 0, bits4([21.0; 4]));
    let telem_off = parse_car_telemetry(&raw_off, 0).unwrap();
    assert!(!frame_flags(&telem_off, &status).drs_active);
}

#[test]
fn frame_flags_ers_available_only_for_positive_store() {
    let raw = build_car_telemetry_packet(0, 0, 1, 0, b(0.0), b(0.0), 0, bits4([20.0; 4]));
    let telem = parse_car_telemetry(&raw, 0).unwrap();
    let mut status = CarStatusData::default_for_normalize();
    assert!(!frame_flags(&telem, &status).ers_available);
    status.ers_store_energy_bits = b(3_200_000.0);
    assert!(frame_flags(&telem, &status).ers_available);
    status.ers_store_energy_bits = b(-1.0);
    assert!(!frame_flags(&telem, &status).ers_available);
    status.ers_store_energy_bits = b(f32::INFINITY);
    assert!(frame_flags(&telem, &status).ers_available);
    status.traction_control = 2;
    status.anti_lock_brakes = 1;
    let flags = frame_flags(&telem, &status);
    assert!(flags.traction_control && flags.abs_active && !flags.pit_limiter && !flags.in_pits);
}

#[test]
fn parse_car_telemetry_completes_within_1ms() {
    let raw = build_car_telemetry_packet(0, 200, 6, 14000, b(0.9), b(0.0), 1, bits4([23.0; 4]));
    let start = std::time::Instant::now();
    let result = parse_car_telemetry(&raw, 0);
    let elapsed = start.elapsed();
    assert!(result.is_ok());
    assert!(elapsed.as_millis() < 1, "parse took {:?} > 1ms", elapsed);
}

#[test]
fn all_gear_values_are_normalised() {
    for gear in [-1i8, 0, 1, 2, 3, 4, 5, 6, 7, 8] {
        let raw = build_car_telemetry_packet(0, 100, gear, 8000, b(0.5), b(0.0), 0, bits4([22.0; 4]));
        let frame = F1_25Adapter::new(None, None).normalize(&raw).unwrap();
        assert_eq!(frame.telemetry.gear, gear, "gear={gear} not preserved");
    }
}
