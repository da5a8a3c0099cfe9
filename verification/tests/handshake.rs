use zakura::error::ZakuraHandlerError;
use zakura::handshake::{
    initiator_expectation, initiator_hello, respond_to_hello, responder_expectation, run_native_initiator_handshake,
    run_native_responder_handshake, start_native_initiator_handshake, ZakuraControlHello,
    ZakuraControlRole, ZakuraHandshakePath,
};
use zakura::limits::{ZakuraHandshakeConfig, ZakuraLimits, ZakuraLocalLimits};
use zakura::time::Duration;
use zakura::types::ZakuraPeerId;

fn handshake_config() -> ZakuraHandshakeConfig {
    ZakuraHandshakeConfig {
        zakura_protocol_min: 1,
        zakura_protocol_max: 1,
        network_id: 7,
        chain_id: [3; 32],
        max_control_frame_bytes: 1_000,
        max_message_bytes: 2_000,
        max_open_streams: 10,
        max_inbound_queue_depth: 20,
        supported_capabilities: 0b0110,
        supported_channels: 0b0011,
    }
}

fn local_limits() -> ZakuraLocalLimits {
    ZakuraLocalLimits {
        max_connections: 4,
        max_pending_handshakes: 2,
        quic_idle_timeout: Duration::from_secs(150),
        keep_alive_interval: Duration::from_secs(10),
        prelude_timeout: Duration::from_secs(3),
        control_timeout: Duration::from_secs(10),
        stream_open_rate_per_second: 16,
        message_rate_per_second: 128,
        max_frame_bytes: 1_000,
        max_message_bytes: 2_000,
        max_open_streams: 10,
        max_inbound_queue_depth: 20,
    }
}

fn peer() -> ZakuraPeerId {
    ZakuraPeerId::new(vec![5; 32])
}

fn hello() -> ZakuraControlHello {
    initiator_hello(
        &local_limits(),
        &handshake_config(),
        &peer(),
        Some([6; 32]),
    )
    .expect("there is a nonce")
}

#[test]
fn native_hello_offers_limits_and_nothing_else() {
    let hello = hello();
    assert_eq!(hello.selected_zakura_protocol, 1);
    assert_eq!(hello.handshake_path, ZakuraHandshakePath::Native);
    assert_eq!(hello.role, ZakuraControlRole::Initiator);
    assert_eq!(hello.network_id, 7);
    assert_eq!(hello.chain_id, [3; 32]);
    assert_eq!(hello.iroh_node_id, vec![5; 32]);
    assert_eq!(hello.peer_nonce, [6; 32]);
    assert_eq!(hello.initiator_upgrade_nonce, [0; 32]);
    assert_eq!(hello.responder_upgrade_nonce, [0; 32]);
    assert_eq!(hello.legacy_upgrade_transcript, [0; 32]);
    assert_eq!((hello.capabilities, hello.required_channels), (0, 0));
    assert_eq!(hello.initial_limits, local_limits().initial_limits());
    assert_eq!(
        initiator_hello(&local_limits(), &handshake_config(), &peer(), None).err(),
        Some(ZakuraHandlerError::Io)
    );
}

#[test]
fn responder_answers_with_what_both_sides_have() {
    let mut hello = hello();
    hello.capabilities = 0b1100;
    hello.required_channels = 0b0101;
    hello.initial_limits = ZakuraLimits {
        max_frame_bytes: 500,
        max_message_bytes: 9_000,
        max_open_streams: 3,
        max_inbound_queue_depth: 99,
        idle_timeout_millis: 1_000,
    };
    let ack = respond_to_hello(
        &handshake_config(),
        &local_limits(),
        &hello,
        Ok(()),
        Some([9; 32]),
    )
    .expect("the hello is acceptable");
    assert_eq!(ack.selected_zakura_protocol, 1);
    assert_eq!(ack.peer_nonce, [9; 32]);
    assert_eq!(ack.remote_peer_nonce, [6; 32]);
    assert_eq!(ack.accepted_capabilities, 0b0100);
    assert_eq!(ack.accepted_channels, 0b0001);
    assert_eq!(
        ack.accepted_limits,
        ZakuraLimits {
            max_frame_bytes: 500,
            max_message_bytes: 2_000,
            max_open_streams: 3,
            max_inbound_queue_depth: 20,
            idle_timeout_millis: 1_000,
        }
    );
    assert_eq!(
        run_native_initiator_handshake(&ack, Ok(())),
        Ok(ack.accepted_limits)
    );
    assert_eq!(
        run_native_initiator_handshake(&ack, Err(ZakuraHandlerError::Validation)),
        Err(ZakuraHandlerError::Validation)
    );
}

#[test]
fn refused_hellos_get_no_answer() {
    assert_eq!(
        respond_to_hello(
            &handshake_config(),
            &local_limits(),
            &hello(),
            Err(ZakuraHandlerError::Validation),
            Some([9; 32])
        ),
        Err(ZakuraHandlerError::Validation)
    );
    assert_eq!(
        respond_to_hello(
            &handshake_config(),
            &local_limits(),
            &hello(),
            Ok(()),
            None
        ),
        Err(ZakuraHandlerError::Io)
    );
    assert_eq!(
        run_native_responder_handshake(
            &handshake_config(),
            &local_limits(),
            &hello(),
            Err(ZakuraHandlerError::Validation)
        ),
        Err(ZakuraHandlerError::Validation)
    );
}

#[test]
fn nonces_are_fresh() {
    let first = start_native_initiator_handshake(&local_limits(), &handshake_config(), &peer())
        .expect("the system has random bytes");
    let second = start_native_initiator_handshake(&local_limits(), &handshake_config(), &peer())
        .expect("the system has random bytes");
    assert_ne!(first.peer_nonce, second.peer_nonce);
    assert_ne!(first.peer_nonce, [0; 32]);
    let ack =
        run_native_responder_handshake(&handshake_config(), &local_limits(), &first, Ok(()))
            .expect("the hello is acceptable");
    assert_eq!(ack.remote_peer_nonce, first.peer_nonce);
    assert_ne!(ack.peer_nonce, first.peer_nonce);
}

#[test]
fn responder_expects_a_native_initiator() {
    let expected = responder_expectation(&handshake_config(), &peer());
    assert_eq!(expected.local, handshake_config());
    assert_eq!(expected.authenticated_remote_id, vec![5; 32]);
    assert_eq!(expected.selected_zakura_protocol, 1);
    assert_eq!(expected.handshake_path, ZakuraHandshakePath::Native);
    assert_eq!(expected.remote_role, ZakuraControlRole::Initiator);
    assert_eq!(expected.initiator_upgrade_nonce, [0; 32]);
    assert_eq!(expected.responder_upgrade_nonce, [0; 32]);
    assert_eq!(expected.legacy_upgrade_transcript, [0; 32]);
}

#[test]
fn initiator_expects_its_own_nonce_and_limits() {
    let hello = hello();
    let ack = respond_to_hello(
        &handshake_config(),
        &local_limits(),
        &hello,
        Ok(()),
        Some([9; 32]),
    )
    .expect("the hello is acceptable");
    let expected = initiator_expectation(&hello, &ack, &handshake_config());
    assert_eq!(expected.selected_zakura_protocol, 1);
    assert_eq!(expected.local_nonce, [6; 32]);
    assert_eq!(expected.remote_nonce, [9; 32]);
    assert_eq!(expected.initial_limits, local_limits().initial_limits());
    assert_eq!(expected.local, handshake_config());
}
