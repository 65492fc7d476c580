use telemetry_adapters::codemasters_udp::CustomUdpSpec;
use telemetry_adapters::error::TelemetryError;
use telemetry_adapters::f1::F1Adapter;

#[test]
fn test_f1_adapter_rejects_short_packet() {
    let adapter = F1Adapter::new(None, None, None, None);
    let spec = adapter.load_spec(None).unwrap();
    let raw = vec![0u8; 4];
    assert!(adapter.normalize(&spec, &raw).is_err());
}

#[test]
fn test_game_id_is_f1() {
    assert_eq!(F1Adapter::new(None, None, None, None).game_id(), "f1");
}

#[test]
fn f1_test_update_rate() {
    assert_eq!(F1Adapter::new(None, None, None, None).expected_update_rate_ms(), 16);
}

#[test]
fn f1_default_spec_is_mode_three_layout() {
    let adapter = F1Adapter::new(None, None, None, None);
    assert_eq!(adapter.mode, 3);
    let spec = adapter.load_spec(None).unwrap();
    let expected = CustomUdpSpec::from_mode(3);
    assert_eq!(spec.fields.len(), expected.fields.len());
    assert_eq!(spec.expected_bytes(), expected.expected_bytes());
    for (a, b) in spec.fields.iter().zip(expected.fields.iter()) {
        assert_eq!(a.channel, b.channel);
    }
}

#[test]
fn f1_decodes_builtin_mode_packet() {
    let adapter = F1Adapter::new(None, Some("0"), None, None);
    let spec = adapter.load_spec(None).unwrap();
    let mut packet = Vec::new();
    for i in 0..spec.expected_bytes() / 4 {
        packet.extend_from_slice(&(i as f32).to_le_bytes());
    }
    let decoded = adapter.normalize(&spec, &packet).unwrap();
    assert_eq!(decoded.words.len(), spec.fields.len());
    assert_eq!(f32::from_bits(decoded.words[1]), 1.0);
    assert!(adapter.normalize(&spec, &packet[..packet.len() - 1]).is_err());
}

#[test]
fn f1_custom_xml_document_replaces_layout() {
    let adapter = F1Adapter::new(None, None, Some("custom.xml"), None);
    let xml = r#"<custom_udp><field name="speed" type="f32"/><field name="gear" type="i32"/></custom_udp>"#;
    let spec = adapter.load_spec(Some(xml)).unwrap();
    assert_eq!(spec.fields.len(), 2);
    assert_eq!(adapter.load_spec(None).unwrap_err(), TelemetryError::SpecUnavailable);
}

#[test]
fn f1_heartbeat_setting_parsed() {
    let adapter = F1Adapter::new(None, None, None, Some("750"));
    assert_eq!(adapter.heartbeat_timeout_ms, 750);
    assert!(adapter.is_recent_packet(1, 750_000_001));
    assert!(!adapter.is_recent_packet(1, 750_000_002));
}
