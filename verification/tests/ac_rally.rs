use telemetry_adapters::ac_rally::{
    build_register_packet, capped_i32, handshake_detects_game, hex_preview, nibble_to_hex,
    normalize_probe_packet, outcome_of_reply, parse_registration_result, passive_probe_close,
    passive_probe_step, passive_wait_ms, PassiveProbeEvent, PassiveProbeReport,
    telemetry_from_handshake, HandshakeProbeOutcome, ProbeValue, DEFAULT_AC_RALLY_ENDPOINT_PORT,
    DEFAULT_AC_RALLY_PASSIVE_PORT, MSG_REGISTRATION_RESULT,
};
use telemetry_adapters::acc::{PROTOCOL_VERSION, REGISTER_COMMAND_APPLICATION};
use telemetry_adapters::acc_reader::{read_acc_string, write_acc_string, PacketReader};
use telemetry_adapters::error::TelemetryError;

fn registration_packet(id: i32, success: u8, readonly: u8, error: &str) -> Vec<u8> {
    let mut packet = vec![MSG_REGISTRATION_RESULT];
    packet.extend_from_slice(&id.to_le_bytes());
    packet.push(success);
    packet.push(readonly);
    write_acc_string(&mut packet, error).unwrap();
    packet
}

#[test]
fn test_ac_rally_adapter_defaults() {
    assert_eq!(DEFAULT_AC_RALLY_ENDPOINT_PORT, 9000);
    assert_eq!(DEFAULT_AC_RALLY_PASSIVE_PORT, 9000);
}

#[test]
fn ac_rally_test_build_register_packet_layout() {
    let packet = build_register_packet("OpenRacing", "pw", 16, "cmd").unwrap();
    let mut reader = PacketReader::new(&packet);
    assert_eq!(reader.read_u8().unwrap(), REGISTER_COMMAND_APPLICATION);
    assert_eq!(reader.read_u8().unwrap(), PROTOCOL_VERSION);
    assert_eq!(read_acc_string(&mut reader).unwrap(), "OpenRacing");
    assert_eq!(read_acc_string(&mut reader).unwrap(), "pw");
    assert_eq!(reader.read_i32_le().unwrap(), 16);
    assert_eq!(read_acc_string(&mut reader).unwrap(), "cmd");
}

#[test]
fn test_parse_registration_result_packet() {
    let packet = registration_packet(42, 1, 0, "ok");
    let result = parse_registration_result(&packet).unwrap();
    assert_eq!(result.connection_id, 42);
    assert!(result.success);
    assert!(!result.readonly);
    assert_eq!(result.error, "ok");
    assert_eq!(result.raw_size, packet.len());
}

#[test]
fn registration_of_other_type_is_refused() {
    let mut packet = registration_packet(42, 1, 0, "ok");
    packet[0] = 9;
    assert_eq!(parse_registration_result(&packet).err(), Some(TelemetryError::UnexpectedMessageType(9)));
}

#[test]
fn test_normalize_probe_packet_contains_debug_fields() {
    let raw = [0x11u8, 0x22, 0x33, 0x44];
    let summary = normalize_probe_packet(&raw).unwrap();
    assert_eq!(summary.raw_size, 4);
    assert_eq!(summary.raw_first_byte, 0x11);
    assert_eq!(summary.raw_preview_hex, "11223344");
    assert_eq!(summary.raw_utf8_preview.as_deref(), Some("\u{11}\"3D"));
}

#[test]
fn probe_summary_of_invalid_utf8_has_no_text() {
    let raw = [0xFFu8, 0x00];
    let summary = normalize_probe_packet(&raw).unwrap();
    assert!(summary.raw_utf8_preview.is_none());
    assert_eq!(summary.raw_preview_hex, "ff00");
}

#[test]
fn probe_preview_is_capped_at_32_bytes() {
    let raw = vec![b'a'; 40];
    let summary = normalize_probe_packet(&raw).unwrap();
    assert_eq!(summary.raw_size, 40);
    assert_eq!(summary.raw_preview_hex.len(), 64);
    assert_eq!(summary.raw_utf8_preview.unwrap().len(), 32);
}

#[test]
fn test_normalize_probe_packet_rejects_empty_data() {
    assert_eq!(normalize_probe_packet(&[]).err(), Some(TelemetryError::EmptyPacket));
}

#[test]
fn hex_helpers() {
    assert_eq!(nibble_to_hex(0), '0');
    assert_eq!(nibble_to_hex(10), 'a');
    assert_eq!(nibble_to_hex(15), 'f');
    assert_eq!(hex_preview(&[0xAB, 0x01, 0xFF], 2), "ab01");
    assert_eq!(hex_preview(&[0x0C, 0x7E], usize::MAX), "0c7e");
    assert_eq!(capped_i32(usize::MAX), i32::MAX);
    assert_eq!(capped_i32(7), 7);
}

#[test]
fn reply_outcomes_and_detection() {
    let reg = outcome_of_reply(&registration_packet(5, 1, 1, ""));
    assert!(matches!(reg, HandshakeProbeOutcome::Registration(ref r) if r.connection_id == 5 && r.readonly));
    assert!(handshake_detects_game(&reg));
    let other = outcome_of_reply(&[7, 1, 2]);
    assert!(matches!(other, HandshakeProbeOutcome::Response { message_type: 7, raw_size: 3 }));
    assert!(handshake_detects_game(&other));
    assert!(!handshake_detects_game(&HandshakeProbeOutcome::Timeout));
}

#[test]
fn handshake_report_lists_registration_fields() {
    let reg = outcome_of_reply(&registration_packet(5, 1, 0, "none"));
    let report = telemetry_from_handshake(&reg, "127.0.0.1:9000");
    let keys: Vec<&str> = report.iter().map(|e| e.key).collect();
    assert_eq!(
        keys,
        vec![
            "probe_stage",
            "probe_endpoint",
            "probe_status",
            "registration_success",
            "registration_readonly",
            "registration_connection_id",
            "registration_error"
        ]
    );
    assert!(matches!(&report[1].value, ProbeValue::Text(t) if t == "127.0.0.1:9000"));
    assert!(matches!(&report[5].value, ProbeValue::Integer(5)));
    let timeout = telemetry_from_handshake(&HandshakeProbeOutcome::Timeout, "x");
    assert_eq!(timeout.len(), 3);
    assert!(matches!(&timeout[2].value, ProbeValue::Text(t) if t == "timeout"));
}

#[test]
fn passive_wait_is_capped_at_four_updates() {
    assert_eq!(passive_wait_ms(2000, 16), 64);
    assert_eq!(passive_wait_ms(30, 16), 30);
}

#[test]
fn passive_probe_counts_and_reports() {
    assert_eq!(passive_probe_step(0, &PassiveProbeEvent::Datagram { len: 12 }), (1, Some(PassiveProbeReport::PacketReceived)));
    assert_eq!(passive_probe_step(3, &PassiveProbeEvent::Datagram { len: 0 }), (4, None));
    assert_eq!(passive_probe_step(u64::MAX, &PassiveProbeEvent::Datagram { len: 1 }).0, u64::MAX);
    assert_eq!(passive_probe_step(2, &PassiveProbeEvent::ReceiveError), (2, Some(PassiveProbeReport::ReceiveError)));
    assert_eq!(passive_probe_step(2, &PassiveProbeEvent::Quiet), (2, None));
    assert_eq!(passive_probe_close(0), Some(PassiveProbeReport::NoPackets));
    assert_eq!(passive_probe_close(5), None);
    assert_eq!(PassiveProbeReport::PacketReceived.label(), "packet_received");
    assert_eq!(PassiveProbeReport::ReceiveError.label(), "receive_error");
    assert_eq!(PassiveProbeReport::NoPackets.label(), "no_packets");
}
