use zakura::connection::{CloseFrame, CloseReason};
use zakura::supervisor::{
    native_transcript_hash, register_and_serve, RegistrationStep, ZakuraRegistration,
    ZakuraRejectReason, ZakuraSupervisorState, ZakuraUpgradeOutcome,
};
use zakura::types::{IpAddr, ZakuraPeerId};

fn peer(byte: u8) -> ZakuraPeerId {
    ZakuraPeerId::new(vec![byte; 32])
}

fn ip(last: u32) -> IpAddr {
    IpAddr::V4(0xc633_6400 + last)
}

fn register(
    state: &mut ZakuraSupervisorState<&'static str>,
    id: &ZakuraPeerId,
    remote_ip: Option<IpAddr>,
    outcome: ZakuraUpgradeOutcome,
) -> ZakuraRegistration {
    state.register(id, remote_ip, native_transcript_hash(), "handle", outcome)
}

#[test]
fn supervisor_ip_capacity_includes_discovery_dials_in_flight() {
    let supervisor = ZakuraSupervisorState::<()>::new(1);
    let remote_ip = ip(12);

    assert!(supervisor.can_accept_remote_ip_with_in_flight(remote_ip, 0));
    assert!(!supervisor.can_accept_remote_ip_with_in_flight(remote_ip, 1));
    assert!(!supervisor.can_accept_remote_ip_with_in_flight(remote_ip, usize::MAX));
}

#[test]
fn connections_per_address_are_capped() {
    let mut state = ZakuraSupervisorState::new(2);
    let upgraded = ZakuraUpgradeOutcome::Upgraded;
    assert_eq!(
        register(&mut state, &peer(1), Some(ip(1)), upgraded),
        ZakuraRegistration::Registered
    );
    assert_eq!(
        register(&mut state, &peer(2), Some(ip(1)), upgraded),
        ZakuraRegistration::Registered
    );
    assert!(!state.has_room_for(Some(ip(1))));
    assert_eq!(
        register(&mut state, &peer(3), Some(ip(1)), upgraded),
        ZakuraRegistration::Rejected(ZakuraRejectReason::ResourceLimit)
    );
    assert!(!state.is_registered(&peer(3)));
    assert_eq!(
        register(&mut state, &peer(3), Some(ip(2)), upgraded),
        ZakuraRegistration::Registered
    );
    // Connections of an unknown address are not counted.
    assert_eq!(
        register(&mut state, &peer(4), None, upgraded),
        ZakuraRegistration::Registered
    );
    assert_eq!(state.registered_ids().len(), 4);
    assert_eq!(state.outbound_len(), 4);
    assert_eq!(*state.outbound_at(0), "handle");
}

#[test]
fn deregistration_undoes_registration() {
    let mut state = ZakuraSupervisorState::new(1);
    register(
        &mut state,
        &peer(1),
        Some(ip(1)),
        ZakuraUpgradeOutcome::Upgraded,
    );
    assert!(state.is_registered(&peer(1)));
    state.deregister(&peer(1), Some(ip(1)));
    assert!(!state.is_registered(&peer(1)));
    assert!(state.registered_ids().is_empty());
    assert!(state.has_room_for(Some(ip(1))));
    // A second deregistration changes nothing.
    state.deregister(&peer(1), Some(ip(1)));
    assert!(state.has_room_for(Some(ip(1))));
    assert_eq!(state.outbound_len(), 0);
}

#[test]
fn the_peer_supervisor_decides_where_there_is_room() {
    let mut state = ZakuraSupervisorState::new(0);
    assert_eq!(
        register(
            &mut state,
            &peer(1),
            Some(ip(1)),
            ZakuraUpgradeOutcome::Duplicate
        ),
        ZakuraRegistration::Duplicate
    );
    let reason = ZakuraRejectReason::Supervisor(9);
    assert_eq!(
        register(
            &mut state,
            &peer(1),
            Some(ip(1)),
            ZakuraUpgradeOutcome::Rejected { reason }
        ),
        ZakuraRegistration::Rejected(reason)
    );
    assert!(state.registered_ids().is_empty());
    // A cap of zero is taken for one.
    assert!(state.has_room_for(Some(ip(1))));
}

#[test]
fn registrations_lead_to_serving_or_closing() {
    assert_eq!(
        register_and_serve(ZakuraRegistration::Registered),
        RegistrationStep::Serve
    );
    assert_eq!(
        register_and_serve(ZakuraRegistration::Duplicate),
        RegistrationStep::Close(CloseFrame {
            code: 0,
            reason: CloseReason::Duplicate
        })
    );
    assert_eq!(
        register_and_serve(ZakuraRegistration::Rejected(
            ZakuraRejectReason::ResourceLimit
        )),
        RegistrationStep::Close(CloseFrame {
            code: 1,
            reason: CloseReason::Registration
        })
    );
    assert_eq!(native_transcript_hash(), [0; 32]);
}
