use telemetry_adapters::acc::{
    build_register_packet, build_request_entry_list_packet, build_request_track_data_packet,
    duration_to_interval_ms, normalize_single, requests_after, RegistrationResult, parse_inbound_message, ACCInboundMessage, ACCSessionState,
    MSG_REALTIME_CAR_UPDATE, MSG_REGISTRATION_RESULT, MSG_TRACK_DATA, PROTOCOL_VERSION,
    REGISTER_COMMAND_APPLICATION, REQUEST_ENTRY_LIST, REQUEST_TRACK_DATA,
};
use telemetry_adapters::acc_reader::{read_acc_string, write_acc_string, PacketReader};
use telemetry_adapters::error::TelemetryError;

fn push_acc_string(buffer: &mut Vec<u8>, value: &str) {
    write_acc_string(buffer, value).unwrap();
}

fn push_lap(buffer: &mut Vec<u8>, lap_time_ms: i32) {
    buffer.extend_from_slice(&lap_time_ms.to_le_bytes());
    buffer.extend_from_slice(&1u16.to_le_bytes());
    buffer.extend_from_slice(&0u16.to_le_bytes());
    buffer.push(0);
    buffer.push(0);
    buffer.push(1);
    buffer.push(0);
    buffer.push(0);
}

fn car_update_packet(car_index: u16, gear_raw: u8, location: u8, kmh: u16, laps: u16, delta: i32) -> Vec<u8> {
    let mut car_packet = vec![MSG_REALTIME_CAR_UPDATE];
    car_packet.extend_from_slice(&car_index.to_le_bytes());
    car_packet.extend_from_slice(&0u16.to_le_bytes());
    car_packet.push(1);
    car_packet.push(gear_raw);
    car_packet.extend_from_slice(&100.0f32.to_le_bytes());
    car_packet.extend_from_slice(&200.0f32.to_le_bytes());
    car_packet.extend_from_slice(&0.25f32.to_le_bytes());
    car_packet.push(location);
    car_packet.extend_from_slice(&kmh.to_le_bytes());
    car_packet.extend_from_slice(&2u16.to_le_bytes());
    car_packet.extend_from_slice(&2u16.to_le_bytes());
    car_packet.extend_from_slice(&2u16.to_le_bytes());
    car_packet.extend_from_slice(&0.5f32.to_le_bytes());
    car_packet.extend_from_slice(&laps.to_le_bytes());
    car_packet.extend_from_slice(&delta.to_le_bytes());
    push_lap(&mut car_packet, 91_000);
    push_lap(&mut car_packet, 92_000);
    push_lap(&mut car_packet, 45_000);
    car_packet
}

#[test]
fn acc_test_build_register_packet_layout() {
    let packet = build_register_packet("OpenRacing", "", 16, "cmd").unwrap();
    let mut reader = PacketReader::new(&packet);
    assert_eq!(reader.read_u8().unwrap(), REGISTER_COMMAND_APPLICATION);
    assert_eq!(reader.read_u8().unwrap(), PROTOCOL_VERSION);
    assert_eq!(read_acc_string(&mut reader).unwrap(), "OpenRacing");
    assert_eq!(read_acc_string(&mut reader).unwrap(), "");
    assert_eq!(reader.read_i32_le().unwrap(), 16);
    assert_eq!(read_acc_string(&mut reader).unwrap(), "cmd");
}

#[test]
fn register_packet_rejects_non_positive_interval() {
    assert_eq!(build_register_packet("x", "", 0, "").unwrap_err(), TelemetryError::NonPositiveInterval(0));
}

#[test]
fn request_packets_layout() {
    let p = build_request_entry_list_packet(42);
    assert_eq!(p[0], REQUEST_ENTRY_LIST);
    assert_eq!(i32::from_le_bytes([p[1], p[2], p[3], p[4]]), 42);
    let t = build_request_track_data_packet(-3);
    assert_eq!(t[0], REQUEST_TRACK_DATA);
    assert_eq!(i32::from_le_bytes([t[1], t[2], t[3], t[4]]), -3);
}

#[test]
fn interval_from_update_rate() {
    assert_eq!(duration_to_interval_ms(16), 16);
    assert_eq!(duration_to_interval_ms(u64::MAX), i32::MAX);
}

#[test]
fn test_parse_registration_result() {
    let mut packet = vec![MSG_REGISTRATION_RESULT];
    packet.extend_from_slice(&42i32.to_le_bytes());
    packet.push(1);
    packet.push(1);
    push_acc_string(&mut packet, "");
    match parse_inbound_message(&packet).unwrap() {
        ACCInboundMessage::RegistrationResult(result) => {
            assert_eq!(result.connection_id, 42);
            assert!(result.success);
            assert!(!result.readonly);
            assert!(result.error.is_empty());
        }
        _ => panic!("expected registration result message"),
    }
}

#[test]
fn registration_readonly_when_writable_byte_is_zero() {
    let mut packet = vec![MSG_REGISTRATION_RESULT];
    packet.extend_from_slice(&1337i32.to_le_bytes());
    packet.push(1);
    packet.push(0);
    push_acc_string(&mut packet, "denied");
    match parse_inbound_message(&packet).unwrap() {
        ACCInboundMessage::RegistrationResult(result) => {
            assert_eq!(result.connection_id, 1337);
            assert!(result.readonly);
            assert_eq!(result.error, "denied");
        }
        _ => panic!("expected registration result message"),
    }
}

#[test]
fn test_parse_realtime_car_update_to_normalized() {
    let mut track_packet = vec![MSG_TRACK_DATA];
    track_packet.extend_from_slice(&7i32.to_le_bytes());
    push_acc_string(&mut track_packet, "monza");
    track_packet.extend_from_slice(&1i32.to_le_bytes());
    track_packet.extend_from_slice(&5793i32.to_le_bytes());
    track_packet.push(0);
    track_packet.push(0);
    let car_packet = car_update_packet(7, 6, 1, 180, 12, -120);

    let mut state = ACCSessionState::new();
    let track_message = parse_inbound_message(&track_packet).unwrap();
    assert!(state.update_and_select_car(&track_message).is_none());
    assert_eq!(state.track_name.as_deref(), Some("monza"));
    let car_message = parse_inbound_message(&car_packet).unwrap();
    let car = state.update_and_select_car(&car_message).expect("expected a car update");
    assert_eq!(car.speed_kmh, 180);
    assert_eq!(car.gear, 4);
    assert_eq!(car.car_index, 7);
    assert_eq!(car.laps, 12);
    assert_eq!(car.delta_ms, -120);
    assert!(!car.in_pits());
    assert!(!car.pit_limiter());
}

#[test]
fn car_update_in_pit_lane_sets_pit_flags() {
    let mut state = ACCSessionState::new();
    let other = parse_inbound_message(&car_update_packet(3, 4, 2, 60, 1, 0)).unwrap();
    let car = state.update_and_select_car(&other).expect("no car focused yet");
    assert!(car.in_pits());
    assert!(car.pit_limiter());
    let entry = parse_inbound_message(&car_update_packet(3, 4, 3, 60, 1, 0)).unwrap();
    let car = state.update_and_select_car(&entry).unwrap();
    assert!(car.in_pits());
    assert!(!car.pit_limiter());
}

#[test]
fn test_parse_invalid_packet() {
    assert!(parse_inbound_message(&[]).is_err());
}

#[test]
fn test_string_round_trip() {
    let mut bytes = Vec::new();
    write_acc_string(&mut bytes, "ferrari_296_gt3").unwrap();
    let mut reader = PacketReader::new(&bytes);
    assert_eq!(read_acc_string(&mut reader).unwrap(), "ferrari_296_gt3");
}

#[test]
fn string_round_trip_non_ascii() {
    let mut bytes = Vec::new();
    write_acc_string(&mut bytes, "Nürburgring").unwrap();
    assert_eq!(u16::from_le_bytes([bytes[0], bytes[1]]) as usize, "Nürburgring".len());
    let mut reader = PacketReader::new(&bytes);
    assert_eq!(read_acc_string(&mut reader).unwrap(), "Nürburgring");
}

#[test]
fn read_string_rejects_invalid_utf8() {
    let bytes = [2u8, 0, 0xFF, 0xFE];
    let mut reader = PacketReader::new(&bytes);
    assert_eq!(read_acc_string(&mut reader).unwrap_err(), TelemetryError::InvalidUtf8);
}

#[test]
fn test_normalize_method() {
    let mut packet = vec![MSG_REALTIME_CAR_UPDATE];
    packet.extend_from_slice(&1u16.to_le_bytes());
    packet.extend_from_slice(&0u16.to_le_bytes());
    packet.push(1);
    packet.push(4);
    packet.extend_from_slice(&0.0f32.to_le_bytes());
    packet.extend_from_slice(&0.0f32.to_le_bytes());
    packet.extend_from_slice(&0.0f32.to_le_bytes());
    packet.push(1);
    packet.extend_from_slice(&120u16.to_le_bytes());
    packet.extend_from_slice(&1u16.to_le_bytes());
    packet.extend_from_slice(&1u16.to_le_bytes());
    packet.extend_from_slice(&1u16.to_le_bytes());
    packet.extend_from_slice(&0.0f32.to_le_bytes());
    packet.extend_from_slice(&3u16.to_le_bytes());
    packet.extend_from_slice(&0i32.to_le_bytes());
    push_lap(&mut packet, 90_000);
    push_lap(&mut packet, 91_000);
    push_lap(&mut packet, 44_000);
    let car = normalize_single(&packet).unwrap();
    assert_eq!(car.speed_kmh, 120);
    assert_eq!(car.gear, 2);
    assert_eq!(car.laps, 3);
}

#[test]
fn normalize_single_rejects_other_messages() {
    let mut packet = vec![MSG_REGISTRATION_RESULT];
    packet.extend_from_slice(&1i32.to_le_bytes());
    packet.push(1);
    packet.push(1);
    push_acc_string(&mut packet, "");
    assert_eq!(normalize_single(&packet), Err(TelemetryError::IncompletePacket(MSG_REGISTRATION_RESULT)));
}

#[test]
fn test_normalize_invalid_data() {
    let invalid_data = vec![0u8; 3];
    assert!(normalize_single(&invalid_data).is_err());
}

#[test]
fn registration_success_calls_for_entry_list_then_track_data() {
    let ok = ACCInboundMessage::RegistrationResult(RegistrationResult {
        connection_id: 7,
        success: true,
        readonly: false,
        error: String::new(),
    });
    assert_eq!(
        requests_after(&ok),
        vec![build_request_entry_list_packet(7), build_request_track_data_packet(7)]
    );
    let refused = ACCInboundMessage::RegistrationResult(RegistrationResult {
        connection_id: 7,
        success: false,
        readonly: false,
        error: "busy".to_string(),
    });
    assert!(requests_after(&refused).is_empty());
    assert!(requests_after(&ACCInboundMessage::EntryList).is_empty());
}
