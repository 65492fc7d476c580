use telemetry_adapters::grid_legends::{GridLegendsAdapter, MIN_PACKET_SIZE, OFF_GEAR, OFF_IN_PIT, OFF_RPM};

fn make_packet(size: usize) -> Vec<u8> {
    vec![0u8; size]
}

#[test]
fn grid_legends_rejects_short_packet() {
    let adapter = GridLegendsAdapter::new(None, None);
    let result = adapter.normalize(&[0u8; MIN_PACKET_SIZE - 1]);
    assert!(result.is_err(), "expected error for short packet");
}

#[test]
fn grid_legends_zero_packet_returns_zero_speed_and_rpm() {
    let adapter = GridLegendsAdapter::new(None, None);
    let raw = make_packet(MIN_PACKET_SIZE);
    let t = adapter.normalize(&raw).unwrap();
    for bits in [t.wheel_speed_fl_bits, t.wheel_speed_fr_bits, t.wheel_speed_rl_bits, t.wheel_speed_rr_bits, t.vel_x_bits, t.vel_y_bits, t.vel_z_bits] {
        assert_eq!(f32::from_bits(bits), 0.0);
    }
    assert_eq!(f32::from_bits(t.rpm_bits), 0.0);
}

#[test]
fn game_id_is_grid_legends() {
    assert_eq!(GridLegendsAdapter::new(None, None).game_id(), "grid_legends");
}

#[test]
fn grid_legends_fields_read_at_their_offsets() {
    let mut raw = make_packet(MIN_PACKET_SIZE);
    raw[OFF_RPM..OFF_RPM + 4].copy_from_slice(&6500.0f32.to_le_bytes());
    raw[OFF_GEAR..OFF_GEAR + 4].copy_from_slice(&4.0f32.to_le_bytes());
    let t = GridLegendsAdapter::new(None, None).normalize(&raw).unwrap();
    assert_eq!(f32::from_bits(t.rpm_bits), 6500.0);
    assert_eq!(f32::from_bits(t.gear_bits), 4.0);
}

#[test]
fn grid_legends_gear_zero_maps_to_reverse() {
    let adapter = GridLegendsAdapter::new(None, None);
    let raw = make_packet(MIN_PACKET_SIZE);
    let t = adapter.normalize(&raw).unwrap();
    assert_eq!(t.normalized_gear(), -1);
}

#[test]
fn grid_legends_gear_of_sent_value() {
    let gear = |v: f32| {
        let mut raw = make_packet(MIN_PACKET_SIZE);
        raw[OFF_GEAR..OFF_GEAR + 4].copy_from_slice(&v.to_le_bytes());
        GridLegendsAdapter::new(None, None).normalize(&raw).unwrap().normalized_gear()
    };
    assert_eq!(gear(4.0), 4);
    assert_eq!(gear(2.5), 3);
    assert_eq!(gear(f32::INFINITY), 8);
    assert_eq!(gear(f32::NEG_INFINITY), -1);
    assert_eq!(gear(f32::NAN), 0);
}

#[test]
fn grid_legends_in_pit_flag() {
    let mut raw = make_packet(MIN_PACKET_SIZE);
    let adapter = GridLegendsAdapter::new(None, None);
    assert!(!adapter.normalize(&raw).unwrap().in_pits());
    raw[OFF_IN_PIT..OFF_IN_PIT + 4].copy_from_slice(&1.0f32.to_le_bytes());
    assert!(adapter.normalize(&raw).unwrap().in_pits());
}
