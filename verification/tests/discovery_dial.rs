use zakura::discovery_dial::{
    apply_discovery_dial_result, release_discovery_in_flight_ips, reserve_discovery_in_flight_ips,
    run_discovery_dial_once, CandidateStep, DialBookUpdate, DiscoveryDialEvent,
    DiscoveryDialResult, DiscoveryDialer,
};
use zakura::error::{ResourceCap, ZakuraHandlerError};
use zakura::node::{NodeId, SocketAddr};
use zakura::supervisor::{native_transcript_hash, ZakuraSupervisorState, ZakuraUpgradeOutcome};
use zakura::types::{IpAddr, ZakuraPeerId};
use zakura::vec_map::VecMap;

fn ip(last: u32) -> IpAddr {
    IpAddr::V4(0xc633_6400 + last)
}

fn addr(last: u32, port: u16) -> SocketAddr {
    SocketAddr::new(ip(last), port)
}

#[test]
fn discovery_in_flight_ip_reservations_are_counted_and_released() {
    let ip = IpAddr::V4(u32::from_be_bytes([198, 51, 100, 10]));
    let other_ip = IpAddr::V4(u32::from_be_bytes([198, 51, 100, 11]));
    let mut in_flight_by_ip = VecMap::new();

    reserve_discovery_in_flight_ips(&mut in_flight_by_ip, &vec![ip, ip, other_ip]);
    assert_eq!(in_flight_by_ip.get(&ip), Some(&2));
    assert_eq!(in_flight_by_ip.get(&other_ip), Some(&1));

    release_discovery_in_flight_ips(&mut in_flight_by_ip, &vec![ip, other_ip]);
    assert_eq!(in_flight_by_ip.get(&ip), Some(&1));
    assert!(!in_flight_by_ip.contains_key(&other_ip));

    release_discovery_in_flight_ips(&mut in_flight_by_ip, &vec![ip]);
    assert_eq!(in_flight_by_ip.len(), 0);
}

#[test]
fn candidates_are_dialed_through_addresses_with_room() {
    let mut supervisor = ZakuraSupervisorState::new(1);
    supervisor.register(
        &ZakuraPeerId::new(vec![7; 32]),
        Some(ip(1)),
        native_transcript_hash(),
        (),
        ZakuraUpgradeOutcome::Upgraded,
    );
    let mut dialer = DiscoveryDialer::new();
    let node = NodeId([1; 32]);
    let addrs = vec![addr(1, 1), addr(2, 2), addr(2, 3), addr(3, 4)];

    assert!(matches!(
        dialer.consider(&supervisor, false, node, &addrs),
        CandidateStep::Stop
    ));
    let reserved = match dialer.consider(&supervisor, true, node, &addrs) {
        CandidateStep::Dial {
            node_addr,
            reserved_ips,
        } => {
            assert_eq!(node_addr.node_id, node);
            assert_eq!(
                node_addr.direct_addrs,
                vec![addr(2, 2), addr(2, 3), addr(3, 4)]
            );
            assert_eq!(reserved_ips, vec![ip(2), ip(3)]);
            reserved_ips
        }
        other => panic!("expected a dial, got {other:?}"),
    };
    assert_eq!(dialer.in_flight_node_ids(), vec![node]);

    // Every address of another candidate is taken now.
    let other = NodeId([2; 32]);
    assert!(matches!(
        dialer.consider(&supervisor, true, other, &addrs),
        CandidateStep::Skip
    ));
    // A node that is being dialed is not dialed again.
    assert!(matches!(
        dialer.consider(&supervisor, true, node, &vec![addr(9, 1)]),
        CandidateStep::Skip
    ));

    // The end of the dial makes room again.
    assert_eq!(
        dialer.finish(node, &reserved, DiscoveryDialResult::Failed),
        DialBookUpdate::Failure
    );
    assert!(dialer.in_flight_node_ids().is_empty());
    assert!(matches!(
        dialer.consider(&supervisor, true, other, &addrs),
        CandidateStep::Dial { .. }
    ));
}

#[test]
fn discovery_dial_results_penalize_only_real_failures() {
    assert_eq!(
        apply_discovery_dial_result(DiscoveryDialResult::LocalResourceLimit),
        DialBookUpdate::Nothing
    );
    assert_eq!(
        apply_discovery_dial_result(DiscoveryDialResult::Failed),
        DialBookUpdate::Failure
    );
    assert_eq!(
        apply_discovery_dial_result(DiscoveryDialResult::Registered),
        DialBookUpdate::Success
    );
}

#[test]
fn discovery_dials_succeed_only_by_registration() {
    let judge = run_discovery_dial_once;
    assert_eq!(
        judge(DiscoveryDialEvent::Looked { registered: true }),
        Some(DiscoveryDialResult::Registered)
    );
    assert_eq!(judge(DiscoveryDialEvent::Looked { registered: false }), None);
    assert_eq!(
        judge(DiscoveryDialEvent::DialEnded(Ok(()))),
        Some(DiscoveryDialResult::Failed)
    );
    assert_eq!(
        judge(DiscoveryDialEvent::DialEnded(Err(
            ZakuraHandlerError::ResourceLimit(ResourceCap::Admission)
        ))),
        Some(DiscoveryDialResult::LocalResourceLimit)
    );
    assert_eq!(
        judge(DiscoveryDialEvent::DialEnded(Err(
            ZakuraHandlerError::Transport
        ))),
        Some(DiscoveryDialResult::Failed)
    );
    assert_eq!(
        judge(DiscoveryDialEvent::TaskFailed),
        Some(DiscoveryDialResult::Failed)
    );
    assert_eq!(
        judge(DiscoveryDialEvent::WatchClosed),
        Some(DiscoveryDialResult::Failed)
    );
}
