use gt7_vgamepad::error::GT7Error;
use gt7_vgamepad::ingest::{IngestEngine, Liveness};
use gt7_vgamepad::is_valid_gt7_ip;
use gt7_vgamepad::types::TelemetryConfig;

fn valid_frame() -> Vec<u8> {
    let mut b = vec![0u8; 296];
    b[0..4].copy_from_slice(&[0x47, 0x37, 0x50, 0x53]);
    b[4..6].copy_from_slice(&1u16.to_le_bytes());
    b
}

#[test]
fn test_client_creation() {
    let engine = IngestEngine::new(TelemetryConfig::default());
    assert!(!engine.is_running());
    assert!(engine.status().is_empty());
}

#[test]
fn test_add_connection() {
    let mut engine = IngestEngine::new(TelemetryConfig::default());
    let port = engine.validate_peer("192.168.1.30", None);
    assert_eq!(port, Ok(33740));
    engine.insert_peer("192.168.1.30", 33740, 0);
    assert_eq!(engine.liveness("192.168.1.30"), Some(Liveness::Unknown));
}

#[test]
fn test_invalid_ip() {
    let engine = IngestEngine::new(TelemetryConfig::default());
    assert!(engine.validate_peer("invalid.ip", None).is_err());
}

#[test]
fn default_config() {
    let c = TelemetryConfig::default();
    assert_eq!(c.console_ip, "192.168.1.30");
    assert_eq!(c.port, 33740);
    assert_eq!(c.timeout, 5);
    assert_eq!(c.heartbeat_interval, 100);
    assert!(!c.enable_logging);
    assert!(c.log_file_path.is_none());
}

#[test]
fn start_twice_is_refused() {
    let mut engine = IngestEngine::new(TelemetryConfig::default());
    assert!(engine.start().is_ok());
    assert!(engine.is_running());
    match engine.start() {
        Err(GT7Error::ConfigError { field, value, .. }) => {
            assert_eq!(field, "client_state");
            assert_eq!(value, "running");
        }
        other => panic!("unexpected {:?}", other),
    }
    engine.stop();
    assert!(!engine.is_running());
    assert!(engine.start().is_ok());
}

#[test]
fn bad_peer_rejected() {
    let engine = IngestEngine::new(TelemetryConfig::default());
    match engine.validate_peer("257.0.0.1", None) {
        Err(GT7Error::InvalidIPAddress { ip }) => assert_eq!(ip, "257.0.0.1"),
        other => panic!("unexpected {:?}", other),
    }
    assert_eq!(
        engine.validate_peer("192.168.1.30", Some(0)),
        Err(GT7Error::InvalidPort { port: 0 })
    );
    assert_eq!(engine.validate_peer("10.0.0.8", Some(9000)), Ok(9000));
    assert!(engine.status().is_empty());
}

#[test]
fn allow_list() {
    assert!(is_valid_gt7_ip("192.168.0.7"));
    assert!(is_valid_gt7_ip("10.1.2.3"));
    assert!(is_valid_gt7_ip("172.16.0.1"));
    assert!(is_valid_gt7_ip("127.0.0.1"));
    assert!(!is_valid_gt7_ip("127.0.0.2"));
    assert!(!is_valid_gt7_ip("8.8.8.8"));
    assert!(!is_valid_gt7_ip("192.169.0.1"));
    assert!(!is_valid_gt7_ip(""));
}

#[test]
fn staleness_cycle() {
    let mut engine = IngestEngine::new(TelemetryConfig::default());
    engine.insert_peer("127.0.0.1", 33740, 1_000);
    let frame = valid_frame();
    assert!(engine.on_datagram("127.0.0.1", &frame, 2_000).is_ok());
    assert_eq!(engine.liveness("127.0.0.1"), Some(Liveness::Live));
    engine.check_liveness(6_000);
    assert_eq!(engine.liveness("127.0.0.1"), Some(Liveness::Live));
    engine.check_liveness(7_001);
    assert_eq!(engine.liveness("127.0.0.1"), Some(Liveness::Stale));
    assert!(engine.on_datagram("127.0.0.1", &frame, 8_000).is_ok());
    assert_eq!(engine.liveness("127.0.0.1"), Some(Liveness::Live));
    let status = engine.status();
    assert_eq!(status, vec![("127.0.0.1".to_string(), Liveness::Live)]);
}

#[test]
fn short_or_bad_datagrams_change_nothing() {
    let mut engine = IngestEngine::new(TelemetryConfig::default());
    engine.insert_peer("10.0.0.2", 33740, 0);
    match engine.on_datagram("10.0.0.2", &[0u8; 100], 5) {
        Err(GT7Error::IncompleteData { expected, actual }) => assert_eq!((expected, actual), (296, 100)),
        other => panic!("unexpected {:?}", other),
    }
    let mut frame = valid_frame();
    frame[4] = 2;
    assert!(matches!(
        engine.on_datagram("10.0.0.2", &frame, 5),
        Err(GT7Error::PacketVersionMismatch { expected: 1, actual: 2 })
    ));
    assert_eq!(engine.liveness("10.0.0.2"), Some(Liveness::Unknown));
    let mut long = valid_frame();
    long.extend_from_slice(&[0xAA; 40]);
    assert!(engine.on_datagram("10.0.0.2", &long, 6).is_ok());
    assert!(engine.on_datagram("10.0.0.9", &long, 6).is_err());
}

#[test]
fn heartbeats_follow_interval() {
    let mut engine = IngestEngine::new(TelemetryConfig::default());
    engine.insert_peer("10.0.0.2", 33740, 0);
    engine.insert_peer("10.0.0.3", 33740, 50);
    assert!(engine.heartbeats_due(99).is_empty());
    assert_eq!(engine.heartbeats_due(100), vec!["10.0.0.2".to_string()]);
    assert_eq!(engine.heartbeats_due(150), vec!["10.0.0.2".to_string(), "10.0.0.3".to_string()]);
    engine.record_heartbeat("10.0.0.2", 150);
    assert_eq!(engine.heartbeats_due(200), vec!["10.0.0.3".to_string()]);
}

#[test]
fn remove_peer_idempotent_error() {
    let mut engine = IngestEngine::new(TelemetryConfig::default());
    engine.insert_peer("10.0.0.2", 33740, 0);
    engine.insert_peer("10.0.0.3", 33740, 0);
    engine.insert_peer("10.0.0.2", 40000, 5);
    assert_eq!(engine.status().len(), 2);
    assert!(engine.remove_peer("10.0.0.2").is_ok());
    match engine.remove_peer("10.0.0.2") {
        Err(GT7Error::NetworkError { address, reason }) => {
            assert_eq!(address, "10.0.0.2");
            assert_eq!(reason, "connection not found");
        }
        other => panic!("unexpected {:?}", other),
    }
    assert_eq!(engine.liveness("10.0.0.3"), Some(Liveness::Unknown));
    assert_eq!(engine.liveness("10.0.0.2"), None);
}
