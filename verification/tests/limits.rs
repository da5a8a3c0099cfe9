use zakura::endpoint::spawn_zakura_endpoint;
use zakura::error::ZakuraHandlerError;
use zakura::limits::{
    effective_discovery_connection_headroom, validate_idle_invariant, Config, ZakuraAcceptedLimits,
    ZakuraConfig, ZakuraHandshakeConfig, ZakuraLimits, ZakuraLocalLimits,
    DEFAULT_DISCOVERY_CONNECTION_HEADROOM,
};
use zakura::node::SocketAddr;
use zakura::time::Duration;
use zakura::types::IpAddr;

fn handshake_config() -> ZakuraHandshakeConfig {
    ZakuraHandshakeConfig {
        zakura_protocol_min: 1,
        zakura_protocol_max: 1,
        network_id: 7,
        chain_id: [3; 32],
        max_control_frame_bytes: 65_536,
        max_message_bytes: 2_097_152,
        max_open_streams: 100,
        max_inbound_queue_depth: 64,
        supported_capabilities: 0b0110,
        supported_channels: 0b0011,
    }
}

fn config() -> Config {
    Config {
        v2_p2p: true,
        zakura: ZakuraConfig::default(),
        handshake: handshake_config(),
        max_connections_per_ip: 1,
    }
}

#[test]
fn discovery_headroom_reserves_at_least_bootstrap_peer_count() {
    assert_eq!(
        effective_discovery_connection_headroom(0),
        DEFAULT_DISCOVERY_CONNECTION_HEADROOM
    );
    assert_eq!(
        effective_discovery_connection_headroom(DEFAULT_DISCOVERY_CONNECTION_HEADROOM - 1),
        DEFAULT_DISCOVERY_CONNECTION_HEADROOM
    );
    assert_eq!(
        effective_discovery_connection_headroom(DEFAULT_DISCOVERY_CONNECTION_HEADROOM + 2),
        DEFAULT_DISCOVERY_CONNECTION_HEADROOM + 2
    );
}

#[test]
fn local_limits_clamp_negotiated_values_down() {
    let limits = ZakuraLocalLimits::from_config(&config());
    let negotiated = ZakuraAcceptedLimits {
        max_frame_bytes: u32::MAX,
        max_message_bytes: u32::MAX,
        max_open_streams: u16::MAX,
        max_inbound_queue_depth: u16::MAX,
        idle_timeout_millis: u32::MAX,
    };

    let clamped = limits.clamp(&negotiated);

    assert_eq!(clamped.max_frame_bytes, limits.max_frame_bytes);
    assert_eq!(clamped.max_message_bytes, limits.max_message_bytes);
    assert_eq!(clamped.max_open_streams, limits.max_open_streams);
    assert_eq!(
        clamped.max_inbound_queue_depth,
        limits.max_inbound_queue_depth
    );
    assert!(clamped.idle_timeout < limits.quic_idle_timeout);
    assert_eq!(clamped.idle_timeout, Duration::from_millis(149_999));
}

#[test]
fn idle_invariant_keeps_app_timeout_below_quic_timeout() {
    let limits = ZakuraLocalLimits::from_config(&config());

    validate_idle_invariant(&limits).expect("default Zakura limits satisfy idle invariant");
    assert!(
        (limits.initial_limits().idle_timeout_millis as u128)
            < limits.quic_idle_timeout.as_millis()
    );
    assert_eq!(limits.initial_limits().idle_timeout_millis, 149_999);
}

#[test]
fn idle_invariant_rejects_a_keepalive_past_the_quic_timeout() {
    let mut limits = ZakuraLocalLimits::from_config(&config());
    limits.keep_alive_interval = limits.quic_idle_timeout;
    assert_eq!(
        validate_idle_invariant(&limits),
        Err(ZakuraHandlerError::InvalidLocalLimits)
    );

    let mut limits = ZakuraLocalLimits::from_config(&config());
    limits.quic_idle_timeout = Duration::from_millis(0);
    limits.keep_alive_interval = Duration { nanos: 0 };
    assert_eq!(
        validate_idle_invariant(&limits),
        Err(ZakuraHandlerError::InvalidLocalLimits)
    );
}

#[test]
fn default_configuration_has_the_documented_caps() {
    let config = ZakuraConfig::default();
    assert_eq!(config.max_connections, 32);
    assert_eq!(config.max_pending_handshakes, 8);
    assert_eq!(config.stream_open_rate_per_second, 16);
    assert_eq!(config.message_rate_per_second, 128);
    assert!(config.bootstrap_peers.is_empty());
    assert!(config.listen_addr.is_none());
    assert!(config.trace_dir.is_none());
}

#[test]
fn configured_zeroes_are_taken_for_one() {
    let mut config = config();
    config.zakura.max_connections = 0;
    config.zakura.max_pending_handshakes = 0;
    config.zakura.stream_open_rate_per_second = 0;
    config.zakura.message_rate_per_second = 0;
    let limits = ZakuraLocalLimits::from_config(&config);
    assert_eq!(limits.max_connections, 1);
    assert_eq!(limits.max_pending_handshakes, 1);
    assert_eq!(limits.stream_open_rate_per_second, 1);
    assert_eq!(limits.message_rate_per_second, 1);
}

#[test]
fn negotiated_zeroes_are_taken_for_one() {
    let limits = ZakuraLocalLimits::from_config(&config());
    let clamped = limits.clamp(&ZakuraLimits {
        max_frame_bytes: 0,
        max_message_bytes: 0,
        max_open_streams: 0,
        max_inbound_queue_depth: 0,
        idle_timeout_millis: 0,
    });
    assert_eq!(clamped.max_frame_bytes, 1);
    assert_eq!(clamped.max_message_bytes, 1);
    assert_eq!(clamped.max_open_streams, 1);
    assert_eq!(clamped.max_inbound_queue_depth, 1);
    assert_eq!(clamped.idle_timeout, Duration::from_millis(1));
}

#[test]
fn accepted_limits_are_the_smaller_of_both_sides() {
    let limits = ZakuraLocalLimits::from_config(&config());
    let accepted = limits.accepted_limits_for(&ZakuraLimits {
        max_frame_bytes: 10,
        max_message_bytes: u32::MAX,
        max_open_streams: 3,
        max_inbound_queue_depth: u16::MAX,
        idle_timeout_millis: 1_000,
    });
    assert_eq!(
        accepted,
        ZakuraLimits {
            max_frame_bytes: 10,
            max_message_bytes: 2_097_152,
            max_open_streams: 3,
            max_inbound_queue_depth: 64,
            idle_timeout_millis: 1_000,
        }
    );
    assert_eq!(limits.accepted_limits_for(&accepted), accepted);
}

#[test]
fn transport_settings_cap_streams_and_turn_datagrams_off() {
    let limits = ZakuraLocalLimits::from_config(&config());
    let settings = limits.transport_config();
    assert_eq!(settings.max_concurrent_bidi_streams, 64);
    assert_eq!(settings.max_concurrent_uni_streams, 0);
    assert_eq!(settings.stream_receive_window, 524_288);
    assert_eq!(settings.receive_window, 2_097_152);
    assert_eq!(settings.send_window, 2_097_152);
    assert_eq!(settings.max_idle_timeout_millis, 150_000);
    assert_eq!(settings.keep_alive_interval, Duration::from_secs(10));
    assert_eq!(settings.datagram_receive_buffer_size, None);
    assert_eq!(settings.datagram_send_buffer_size, 0);
}

#[test]
fn endpoint_plan_follows_the_configuration() {
    let key = "aa".repeat(32);
    let mut off = config();
    off.v2_p2p = false;
    assert!(matches!(
        spawn_zakura_endpoint(&off, Some("not a key"), &Vec::new()),
        Ok(None)
    ));

    assert!(matches!(
        spawn_zakura_endpoint(&config(), Some("not a key"), &Vec::new()),
        Err(ZakuraHandlerError::InvalidSecretKey)
    ));

    let entry = format!("{}@127.0.0.1:8233", iroh_node_id());
    let addr = SocketAddr::new(IpAddr::V4(0x7f00_0001), 8233);
    let entries = vec![(entry, Some(addr)), ("missing-address".to_string(), None)];
    let plan = spawn_zakura_endpoint(&config(), Some(&key), &entries)
        .expect("the configuration is valid")
        .expect("the endpoint is on");
    assert_eq!(plan.secret_key, [0xaa; 32]);
    assert_eq!(plan.bootstrap_peers.len(), 1);
    assert_eq!(plan.bootstrap_peers[0].direct_addrs, vec![addr]);
    assert_eq!(
        plan.discovery_connection_headroom,
        DEFAULT_DISCOVERY_CONNECTION_HEADROOM
    );
    assert_eq!(plan.services.len(), 4);
    assert_eq!(plan.transport, plan.limits.transport_config());
}

fn iroh_node_id() -> String {
    iroh::SecretKey::from_bytes(&[9; 32]).public().to_string()
}
