//! Tests of connection records, streams, discovery and the peer cache.

use remote_desk::connection::{Connection, ConnectionRole, ConnectionState, ConnectionStats};
use remote_desk::discovery::{parse_instance_fullname, parse_txt_device_id, PeerAddr, PeerCache, PeerInfo};
use remote_desk::listener::ConnectionResponse;
use remote_desk::manager::ManagerConfig;
use remote_desk::quic::QuicConfig;
use remote_desk::protocol::{DesktopInfo, RejectReason};
use remote_desk::quic::{QuicError, StreamType};
use remote_desk::security::DeviceId;
use remote_desk::stream::StreamError;

fn v4(a: u8, b: u8, c: u8, d: u8, port: u16) -> PeerAddr {
    PeerAddr::V4 { a, b, c, d, port }
}

#[test]
fn test_connection_stats() {
    let mut stats = ConnectionStats::new();

    stats.record_sent(1024);
    stats.record_received(2048);
    stats.record_send_failure();

    assert_eq!(stats.bytes_sent, 1024);
    assert_eq!(stats.bytes_received, 2048);
    assert_eq!(stats.messages_sent, 1);
    assert_eq!(stats.messages_received, 1);
    assert_eq!(stats.send_failures, 1);
}

#[test]
fn test_connection_creation() {
    let device_id = DeviceId::from_u32(123456789).unwrap();
    let conn = Connection::new(
        device_id,
        "Test Device".to_string(),
        v4(127, 0, 0, 1, 8080),
        ConnectionRole::Client,
    );

    let info = conn.info();
    assert_eq!(info.remote_id, device_id);
    assert_eq!(info.state, ConnectionState::Disconnected);
    assert_eq!(info.role, ConnectionRole::Client);
}

#[test]
fn test_connection_state_changes() {
    let device_id = DeviceId::from_u32(123456789).unwrap();
    let mut conn = Connection::new(
        device_id,
        "Test Device".to_string(),
        v4(127, 0, 0, 1, 8080),
        ConnectionRole::Client,
    );

    conn.set_state(ConnectionState::Connecting);
    assert_eq!(conn.info().state, ConnectionState::Connecting);

    conn.set_state(ConnectionState::Connected);
    assert!(conn.is_connected());
    assert!(conn.connection_duration().is_some());
}

#[test]
fn test_heartbeat_timeout() {
    let device_id = DeviceId::from_u32(123456789).unwrap();
    let mut conn = Connection::new(
        device_id,
        "Test Device".to_string(),
        v4(127, 0, 0, 1, 8080),
        ConnectionRole::Client,
    );

    assert!(!conn.is_heartbeat_timeout());
    conn.update_heartbeat();
    assert!(!conn.is_heartbeat_timeout());
}

#[test]
fn test_connection_response() {
    let response = ConnectionResponse::Accept {
        host_name: "Host".to_string(),
        desktop_info: DesktopInfo::current(),
    };

    assert!(matches!(response, ConnectionResponse::Accept { .. }));

    let response = ConnectionResponse::Reject {
        reason: RejectReason::UserDenied,
        message: None,
    };

    assert!(matches!(response, ConnectionResponse::Reject { .. }));
}

#[test]
fn test_stream_type_conversion() {
    assert_eq!(StreamType::from_u8(0), Some(StreamType::Control));
    assert_eq!(StreamType::from_u8(1), Some(StreamType::Video));
    assert_eq!(StreamType::from_u8(2), Some(StreamType::Input));
    assert_eq!(StreamType::from_u8(3), Some(StreamType::Clipboard));
    assert_eq!(StreamType::from_u8(4), None);
}

#[test]
fn test_stream_error_display() {
    let err = StreamError::MessageTooLarge { size: 100, max: 50 };
    assert!(err.message().contains("100"));
    assert!(err.message().contains("50"));
}

#[test]
fn test_stream_error_conversion() {
    let stream_err = StreamError::StreamClosed;
    let quic_err: QuicError = stream_err.into();
    assert!(matches!(quic_err, QuicError::StreamError(_)));
}

#[test]
fn test_peer_info_primary_address() {
    let device_id = DeviceId::from_u32(123456789).unwrap();

    let ipv4 = v4(192, 168, 1, 1, 7070);
    let ipv6 = PeerAddr::V6 { hi: 0, lo: 1, port: 7070 };

    let peer = PeerInfo::new(device_id, "Test".to_string(), vec![ipv6, ipv4]);
    assert_eq!(peer.primary_address(), Some(ipv4));

    let peer = PeerInfo::new(device_id, "Test".to_string(), vec![ipv6]);
    assert_eq!(peer.primary_address(), Some(ipv6));

    let peer = PeerInfo::new(device_id, "Test".to_string(), vec![]);
    assert_eq!(peer.primary_address(), None);
}

#[test]
fn test_add_and_get_peer() {
    let peer_id = DeviceId::from_u32(987654321).unwrap();
    let mut cache = PeerCache::new();

    let addr = v4(192, 168, 1, 100, 7070);
    let peer_info = PeerInfo::new(peer_id, "Remote".to_string(), vec![addr]);

    assert!(cache.add_peer(peer_info));
    assert!(cache.has_peer(&peer_id));

    let retrieved = cache.get_peer(&peer_id);
    assert!(retrieved.is_some());
    assert_eq!(retrieved.unwrap().device_id, peer_id);

    // adding the same peer again is an update, not a new entry
    let peer_info2 = PeerInfo::new(peer_id, "Renamed".to_string(), vec![addr]);
    assert!(!cache.add_peer(peer_info2));
    assert_eq!(cache.len(), 1);
}

#[test]
fn test_remove_peer() {
    let peer_id = DeviceId::from_u32(987654321).unwrap();
    let mut cache = PeerCache::new();

    let addr = v4(192, 168, 1, 100, 7070);
    cache.add_peer(PeerInfo::new(peer_id, "Remote".to_string(), vec![addr]));
    assert!(cache.has_peer(&peer_id));

    assert!(cache.remove_peer(&peer_id));
    assert!(!cache.has_peer(&peer_id));
}

#[test]
fn test_get_all_peers() {
    let mut cache = PeerCache::new();

    let peer1_id = DeviceId::from_u32(111111111).unwrap();
    let peer2_id = DeviceId::from_u32(222222222).unwrap();
    let addr = v4(192, 168, 1, 100, 7070);

    cache.add_peer(PeerInfo::new(peer1_id, "First".to_string(), vec![addr]));
    cache.add_peer(PeerInfo::new(peer2_id, "Second".to_string(), vec![addr]));

    assert_eq!(cache.all_peers().len(), 2);
    assert!(cache.resolve(&peer1_id).is_some());
    assert!(cache
        .resolve(&DeviceId::from_u32(333333333).unwrap())
        .is_none());
}

#[test]
fn test_cleanup_stale_peers() {
    let mut cache = PeerCache::new();
    let addr = v4(10, 0, 0, 1, 7070);

    let fresh_id = DeviceId::from_u32(111111111).unwrap();
    let stale_id = DeviceId::from_u32(222222222).unwrap();

    let mut fresh = PeerInfo::new(fresh_id, "Fresh".to_string(), vec![addr]);
    fresh.last_seen = 1_000_000;
    let mut stale = PeerInfo::new(stale_id, "Stale".to_string(), vec![addr]);
    stale.last_seen = 500_000;

    cache.add_peer(fresh);
    cache.add_peer(stale);

    // cutoff of 120 seconds at time 1 000 500: the peer silent for over
    // two minutes leaves, the recent one stays
    cache.cleanup_stale_peers(1_000_500, 120_000);

    assert!(cache.has_peer(&fresh_id));
    assert!(!cache.has_peer(&stale_id));
}

#[test]
fn test_parse_txt_device_id() {
    assert_eq!(
        parse_txt_device_id("123456789").map(|d| d.as_u32()),
        Some(123456789)
    );
    assert!(parse_txt_device_id("remotedesk").is_none());
    assert!(parse_txt_device_id("42").is_none());
}

#[test]
fn test_quic_config_default() {
    let config = QuicConfig::default();
    assert!(matches!(config.bind_addr, remote_desk::discovery::PeerAddr::V4 { port: 7070, .. }));
    assert!(config.cert_pair.is_none());
}

#[test]
fn test_quic_config_builder() {
    let addr = v4(127, 0, 0, 1, 8080);
    let config = QuicConfig::default()
        .with_bind_addr(addr)
        .with_idle_timeout(60);

    assert_eq!(config.bind_addr, addr);
    assert_eq!(config.idle_timeout_secs, 60);
}

#[test]
fn test_manager_config_builder() {
    let device_id = DeviceId::from_u32(123456789).unwrap();
    let config = ManagerConfig::new(device_id, "Local".to_string(), "/tmp/conf".to_string())
        .with_port(9000);
    assert_eq!(config.service_port, 9000);
    assert_eq!(config.max_connections, 5);
    assert!(config.password_hash_path.ends_with("/password.hash"));
}

#[test]
fn test_parse_instance_fullname() {
    assert_eq!(
        parse_instance_fullname("remotedesk-123456789._remotedesk._udp.local.")
            .map(|d| d.as_u32()),
        Some(123456789)
    );
    assert!(parse_instance_fullname("printer-123456789.local.").is_none());
    assert!(parse_instance_fullname("remotedesk-42.local.").is_none());
    assert!(parse_instance_fullname("remotedesk-").is_none());
}

#[test]
fn test_resolve_returns_cached_addresses() {
    let peer_id = DeviceId::from_u32(444444444).unwrap();
    let mut cache = PeerCache::new();
    let addrs = vec![v4(10, 0, 0, 2, 7070), v4(10, 0, 0, 3, 7171)];
    cache.add_peer(PeerInfo::new(peer_id, "Remote".to_string(), addrs.clone()));

    assert_eq!(cache.resolve(&peer_id), Some(addrs));

    // a cached peer without addresses resolves to nothing
    let bare_id = DeviceId::from_u32(555555555).unwrap();
    cache.add_peer(PeerInfo::new(bare_id, "Bare".to_string(), vec![]));
    assert!(cache.resolve(&bare_id).is_none());
}
