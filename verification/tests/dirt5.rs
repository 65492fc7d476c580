use telemetry_adapters::codemasters_udp::CustomUdpSpec;
use telemetry_adapters::dirt5::Dirt5Adapter;
use telemetry_adapters::error::TelemetryError;

#[test]
fn test_dirt5_adapter_rejects_short_packet() {
    let adapter = Dirt5Adapter::new(None, None, None, None);
    let raw = vec![0u8; 4];
    let spec = adapter.load_spec(None).unwrap();
    let result = adapter.normalize(&spec, &raw);
    assert!(result.is_err());
}

#[test]
fn test_dirt5_adapter_normalization() {
    let spec = CustomUdpSpec::from_mode(1);
    let mut packet = Vec::new();
    packet.extend_from_slice(&20.0f32.to_le_bytes());
    packet.extend_from_slice(&6283.1855f32.to_le_bytes());
    packet.extend_from_slice(&(3i32.to_le_bytes()));
    packet.extend_from_slice(&(0.25f32.to_le_bytes()));
    packet.extend_from_slice(&(0.7f32.to_le_bytes()));
    packet.extend_from_slice(&(0.0f32.to_le_bytes()));
    packet.extend_from_slice(&(0.0f32.to_le_bytes()));
    packet.extend_from_slice(&18.0f32.to_le_bytes());
    packet.extend_from_slice(&19.0f32.to_le_bytes());
    packet.extend_from_slice(&15.0f32.to_le_bytes());
    packet.extend_from_slice(&14.0f32.to_le_bytes());
    packet.extend_from_slice(&0.02f32.to_le_bytes());
    packet.extend_from_slice(&0.01f32.to_le_bytes());
    packet.extend_from_slice(&0.01f32.to_le_bytes());
    packet.extend_from_slice(&0.03f32.to_le_bytes());
    let adapter = Dirt5Adapter::new(None, None, None, None);
    let decoded = adapter.normalize(&spec, &packet).unwrap();
    assert_eq!(f32::from_bits(decoded.words[0]), 20.0);
    assert_eq!(decoded.words[2] as i32, 3);
    assert_eq!(spec.fields[7].channel, "wheelpatchspeedfl");
    assert_eq!(f32::from_bits(decoded.words[7]), 18.0);
}

#[test]
fn dirt5_configured_xml_without_document_is_unavailable() {
    let adapter = Dirt5Adapter::new(None, Some("2"), Some("/tmp/spec.xml"), None);
    assert_eq!(adapter.mode, 2);
    assert_eq!(adapter.custom_udp_xml.as_deref(), Some("/tmp/spec.xml"));
    assert_eq!(adapter.load_spec(None).unwrap_err(), TelemetryError::SpecUnavailable);
}

#[test]
fn dirt5_blank_xml_setting_is_ignored_and_mode_capped() {
    let adapter = Dirt5Adapter::new(Some("22000"), Some("9"), Some("   "), None);
    assert_eq!(adapter.bind_port, 22000);
    assert_eq!(adapter.mode, 1);
    assert!(adapter.custom_udp_xml.is_none());
    assert_eq!(adapter.game_id(), "dirt5");
}
