use gt7_vgamepad::error::GT7Error;
use gt7_vgamepad::f32bits::{stick_axis_byte, trigger_axis_byte, F32Bits};
use gt7_vgamepad::packet::GT7TelemetryPacket;
use gt7_vgamepad::types::{GameStateType, WeatherCondition};

fn put_u16(b: &mut [u8], off: usize, v: u16) {
    b[off..off + 2].copy_from_slice(&v.to_le_bytes());
}

fn put_u32(b: &mut [u8], off: usize, v: u32) {
    b[off..off + 4].copy_from_slice(&v.to_le_bytes());
}

fn put_f32(b: &mut [u8], off: usize, v: f32) {
    put_u32(b, off, v.to_bits());
}

/// A race frame: state InRace, throttle 0.5, brake 0.0, velocity (3, 4, 12).
fn fixture() -> Vec<u8> {
    let mut b = vec![0u8; 296];
    b[0..4].copy_from_slice(&[0x47, 0x37, 0x50, 0x53]);
    put_u16(&mut b, 4, 1);
    put_u32(&mut b, 6, 42);
    b[10] = 1;
    b[11] = 0;
    b[12] = 0;
    put_u32(&mut b, 13, 7);
    put_u16(&mut b, 17, 3);
    put_u16(&mut b, 19, 10);
    b[21] = 2;
    b[22] = 16;
    put_u32(&mut b, 23, 0);
    put_u32(&mut b, 27, 95_123);
    put_u32(&mut b, 31, 12_000);
    put_f32(&mut b, 35, 0.25);
    put_f32(&mut b, 50, 100.0);
    put_f32(&mut b, 54, -5.0);
    put_f32(&mut b, 58, 2.5);
    put_f32(&mut b, 62, 3.0);
    put_f32(&mut b, 66, 4.0);
    put_f32(&mut b, 70, 12.0);
    put_f32(&mut b, 98, 80.0);
    put_f32(&mut b, 102, 0.1);
    put_f32(&mut b, 178, 30.0);
    put_f32(&mut b, 182, 60.0);
    put_f32(&mut b, 186, 6500.0);
    put_f32(&mut b, 190, 8000.0);
    put_f32(&mut b, 194, 0.5);
    put_f32(&mut b, 198, 0.0);
    put_u32(&mut b, 200, 0x0011_0000);
    put_f32(&mut b, 204, 5807.0);
    put_f32(&mut b, 208, 35.0);
    b[212] = 1;
    put_f32(&mut b, 213, 28.0);
    put_f32(&mut b, 217, 22.0);
    b[221] = 2;
    put_f32(&mut b, 222, 0.0);
    b[226..232].copy_from_slice(b"Suzuka");
    b[280..288].copy_from_slice(&123_456_789u64.to_le_bytes());
    b
}

fn bits(v: f32) -> F32Bits {
    F32Bits { bits: v.to_bits() }
}

#[test]
fn clean_decode() {
    let b = fixture();
    let p = GT7TelemetryPacket::from_bytes(&b).unwrap();
    assert!(p.is_in_race());
    assert!(!p.is_in_menu());
    assert_eq!(p.version, 1);
    assert_eq!(p.packet_id, 42);
    assert_eq!(p.game_state.menu_id, 7);
    assert_eq!(p.timestamp, 123_456_789);
    assert_eq!(p.car_info.engine.throttle, bits(0.5));
    assert_eq!(p.car_info.engine.brake, bits(0.0));
    let v = p.car_info.position.velocity;
    let (x, y, z) = (f32::from_bits(v.x.bits), f32::from_bits(v.y.bits), f32::from_bits(v.z.bits));
    let speed = (x * x + y * y + z * z).sqrt() * 3.6;
    assert!((speed - 13.0 * 3.6).abs() < 1e-4);
    assert_eq!(p.track_info.track_data.track_name, "Suzuka");
    assert_eq!(p.track_info.track_data.track_name_bytes, b"Suzuka".to_vec());
    assert_eq!(p.track_info.track_data.weather, WeatherCondition::Cloudy);
    assert_eq!(p.track_info.current_sector, 2);
    let race = p.game_state.race_info.unwrap();
    assert_eq!(race.current_lap, 3);
    assert_eq!(race.total_laps, 10);
    assert_eq!(race.position, 2);
    assert_eq!(race.total_participants, 16);
    assert_eq!(race.last_lap_time, Some(95_123));
    assert_eq!(race.current_lap_time, 12_000);
}

#[test]
fn wrong_length_is_incomplete() {
    for len in [0usize, 1, 295, 297, 592] {
        let b = vec![0u8; len];
        match GT7TelemetryPacket::from_bytes(&b) {
            Err(GT7Error::IncompleteData { expected, actual }) => {
                assert_eq!(expected, 296);
                assert_eq!(actual, len);
            }
            other => panic!("unexpected {:?}", other),
        }
    }
}

#[test]
fn magic_bit_flip_rejects() {
    let good = fixture();
    assert!(GT7TelemetryPacket::from_bytes(&good).is_ok());
    for i in 0..4 {
        for bit in 0..8 {
            let mut b = good.clone();
            b[i] ^= 1 << bit;
            match GT7TelemetryPacket::from_bytes(&b) {
                Err(GT7Error::InvalidPacketFormat { field }) => assert_eq!(field, "magic"),
                other => panic!("unexpected {:?}", other),
            }
        }
    }
}

#[test]
fn version_rejection() {
    let mut b = fixture();
    put_u16(&mut b, 4, 2);
    match GT7TelemetryPacket::from_bytes(&b) {
        Err(GT7Error::PacketVersionMismatch { expected, actual }) => {
            assert_eq!(expected, 1);
            assert_eq!(actual, 2);
        }
        other => panic!("unexpected {:?}", other),
    }
}

#[test]
fn best_lap_zero_is_absent() {
    let mut b = fixture();
    let p = GT7TelemetryPacket::from_bytes(&b).unwrap();
    assert_eq!(p.get_best_lap_time(), None);
    put_u32(&mut b, 23, 83_456);
    let p = GT7TelemetryPacket::from_bytes(&b).unwrap();
    assert_eq!(p.get_best_lap_time(), Some(83_456));
    assert_eq!(p.game_state.race_info.unwrap().best_lap_time, Some(83_456));
}

#[test]
fn race_absent_outside_race() {
    let mut b = fixture();
    b[10] = 0;
    let p = GT7TelemetryPacket::from_bytes(&b).unwrap();
    assert!(p.is_in_menu());
    assert!(p.game_state.race_info.is_none());
    assert_eq!(p.get_best_lap_time(), None);
}

#[test]
fn unknown_discriminants_collapse() {
    let mut b = fixture();
    b[10] = 9;
    b[212] = 77;
    b[11] = 5;
    let p = GT7TelemetryPacket::from_bytes(&b).unwrap();
    assert_eq!(p.game_state.state_type, GameStateType::Unknown);
    assert_eq!(p.track_info.track_data.weather, WeatherCondition::Unknown);
    assert!(p.game_state.is_paused);
    assert_eq!(GameStateType::from(5u8), GameStateType::Loading);
    assert_eq!(WeatherCondition::from(5u8), WeatherCondition::Snow);
}

#[test]
fn throttle_out_of_range() {
    let mut b = fixture();
    put_f32(&mut b, 194, 1.5);
    match GT7TelemetryPacket::from_bytes(&b) {
        Err(GT7Error::InvalidPacketFormat { field }) => assert_eq!(field, "throttle"),
        other => panic!("unexpected {:?}", other),
    }
    put_f32(&mut b, 194, -0.25);
    match GT7TelemetryPacket::from_bytes(&b) {
        Err(GT7Error::InvalidPacketFormat { field }) => assert_eq!(field, "throttle"),
        other => panic!("unexpected {:?}", other),
    }
}

#[test]
fn brake_and_wetness_out_of_range() {
    let mut b = fixture();
    put_f32(&mut b, 198, 2.0);
    match GT7TelemetryPacket::from_bytes(&b) {
        Err(GT7Error::InvalidPacketFormat { field }) => assert_eq!(field, "brake"),
        other => panic!("unexpected {:?}", other),
    }
    let mut b = fixture();
    put_f32(&mut b, 222, f32::NAN);
    match GT7TelemetryPacket::from_bytes(&b) {
        Err(GT7Error::InvalidPacketFormat { field }) => assert_eq!(field, "wetness"),
        other => panic!("unexpected {:?}", other),
    }
}

#[test]
fn unit_range_edges_pass() {
    let mut b = fixture();
    put_f32(&mut b, 194, 1.0);
    put_f32(&mut b, 198, -0.0);
    put_f32(&mut b, 222, 1.0);
    assert!(GT7TelemetryPacket::from_bytes(&b).is_ok());
}

#[test]
fn encode_decode_round_trip() {
    let mut b = fixture();
    b[11] = 1;
    let p = GT7TelemetryPacket::from_bytes(&b).unwrap();
    let encoded = p.to_bytes();
    assert_eq!(encoded.len(), 296);
    let q = GT7TelemetryPacket::from_bytes(&encoded).unwrap();
    assert_eq!(p, q);
    assert_eq!(&encoded[0..4], &[0x47, 0x37, 0x50, 0x53]);
}

#[test]
fn gear_display() {
    let mut b = fixture();
    b[200] = 0;
    b[201] = 0;
    b[202] = 0;
    b[203] = 0;
    put_f32(&mut b, 204, 0.0);
    let cases: [(u8, &str); 5] = [(0, "R"), (3, "3"), (12, "12"), (127, "127"), (0xFF, "N")];
    for (raw, text) in cases {
        b[206] = raw;
        let p = GT7TelemetryPacket::from_bytes(&b).unwrap();
        assert_eq!(p.get_gear_display(), text);
    }
}

#[test]
fn track_name_invalid_utf8_is_replaced() {
    let mut b = fixture();
    b[226..232].copy_from_slice(&[b'A', 0xFF, b'B', 0, 0, 0]);
    let p = GT7TelemetryPacket::from_bytes(&b).unwrap();
    assert_eq!(p.track_info.track_data.track_name, "A\u{FFFD}B");
    assert_eq!(p.track_info.track_data.track_name_bytes, vec![b'A', 0xFF, b'B']);
}

#[test]
fn validate_checks_version() {
    let b = fixture();
    let mut p = GT7TelemetryPacket::from_bytes(&b).unwrap();
    assert!(p.validate().is_ok());
    p.version = 3;
    match p.validate() {
        Err(GT7Error::PacketVersionMismatch { expected, actual }) => {
            assert_eq!((expected, actual), (1, 3));
        }
        other => panic!("unexpected {:?}", other),
    }
}

#[test]
fn stick_mapping_values() {
    assert_eq!(stick_axis_byte(bits(0.0)), 127);
    assert_eq!(stick_axis_byte(bits(-0.0)), 127);
    assert_eq!(stick_axis_byte(bits(-1.0)), 0);
    assert_eq!(stick_axis_byte(bits(1.0)), 255);
    assert_eq!(stick_axis_byte(bits(0.5)), 191);
    assert_eq!(stick_axis_byte(bits(-0.5)), 63);
    assert_eq!(stick_axis_byte(bits(1.0e-30)), 127);
    assert_eq!(stick_axis_byte(bits(-1.0e-30)), 127);
}

#[test]
fn trigger_mapping_values() {
    assert_eq!(trigger_axis_byte(bits(1.0)), 255);
    assert_eq!(trigger_axis_byte(bits(0.0)), 0);
    assert_eq!(trigger_axis_byte(bits(0.5)), 127);
    assert_eq!(trigger_axis_byte(bits(0.25)), 63);
    assert_eq!(trigger_axis_byte(bits(1.0e-20)), 0);
}

#[test]
fn error_predicates() {
    assert!(GT7Error::network_error("10.0.0.1", "down").is_network_error());
    assert!(GT7Error::network_error("10.0.0.1", "down").is_recoverable());
    assert!(GT7Error::incomplete_data(296, 3).is_packet_error());
    assert!(GT7Error::incomplete_data(296, 3).is_recoverable());
    assert!(GT7Error::checksum_error(1, 2).is_packet_error());
    assert!(GT7Error::invalid_packet_format("magic").is_packet_error());
    assert!(GT7Error::packet_version_mismatch(1, 2).is_packet_error());
    assert!(GT7Error::packet_parse_error("id", 6, 4).is_packet_error());
    assert!(GT7Error::invalid_ip("x").is_config_error());
    assert!(GT7Error::invalid_port(0).is_config_error());
    assert!(GT7Error::config_error("a", "b", "c").is_config_error());
    assert!(GT7Error::timeout_error("recv", 100).is_recoverable());
    assert!(GT7Error::game_not_connected("never").is_recoverable());
    assert!(!GT7Error::invalid_game_state("menu", "lap").is_recoverable());
    assert!(!GT7Error::file_error("open").is_network_error());
    assert!(!GT7Error::multi_client_error("m").is_packet_error());
    match GT7Error::config_error("a", "b", "c") {
        GT7Error::ConfigError { field, value, reason } => {
            assert_eq!((field.as_str(), value.as_str(), reason.as_str()), ("a", "b", "c"));
        }
        other => panic!("unexpected {:?}", other),
    }
}
