use iroh::SecretKey;
use zakura::echo_status::encode_test_echo_status_response_payload;
use zakura::node::NodeId;
use zakura::service_route::{
    handle_nodes, select_handle_for_node_id, single_echo_payload, EchoRoute, RouteAsk,
};
use zakura::types::{Frame, ZakuraPeerId};

fn node(byte: u8) -> NodeId {
    NodeId([byte; 32])
}

#[test]
fn advertising_peers_are_asked_first() {
    let mut route = EchoRoute::new(
        vec![node(3), node(2)],
        vec![Some(node(1)), None, Some(node(2))],
    );
    // Three has no handle, two is at the third one.
    let ask = route.next_ask().expect("a peer is left");
    assert_eq!(
        ask,
        RouteAsk {
            handle: 2,
            node: node(2),
            fallback: false
        }
    );
    let response = route.on_answer(&ask, b"pong".to_vec());
    assert_eq!(response.responder, node(2));
    assert_eq!(response.payload, b"pong");
    assert!(!response.used_fallback);
    assert_eq!(response.failed_service_candidates, vec![node(3)]);
}

#[test]
fn failed_advertisers_fall_back_to_other_peers() {
    let mut route = EchoRoute::new(
        vec![node(2)],
        vec![Some(node(2)), None, Some(node(1)), Some(node(4))],
    );
    let ask = route.next_ask().expect("a peer is left");
    assert!(!ask.fallback);
    route.on_failure(&ask);

    let ask = route.next_ask().expect("a peer is left");
    assert_eq!(
        ask,
        RouteAsk {
            handle: 2,
            node: node(1),
            fallback: true
        }
    );
    route.on_failure(&ask);
    let ask = route.next_ask().expect("a peer is left");
    assert_eq!((ask.handle, ask.node), (3, node(4)));
    route.on_failure(&ask);
    assert_eq!(route.next_ask(), None);
    assert_eq!(route.next_ask(), None);
}

#[test]
fn handles_are_found_by_node() {
    let key = SecretKey::from_bytes(&[1; 32]).public();
    let nodes = handle_nodes(&vec![
        ZakuraPeerId::new(vec![1]),
        ZakuraPeerId::new(key.as_bytes().to_vec()),
    ]);
    assert_eq!(nodes, vec![None, Some(NodeId(*key.as_bytes()))]);
    assert_eq!(
        select_handle_for_node_id(&nodes, NodeId(*key.as_bytes())),
        Some(1)
    );
    assert_eq!(select_handle_for_node_id(&nodes, node(9)), None);
}

#[test]
fn answers_have_exactly_one_frame() {
    let frame = Frame {
        message_type: 2,
        flags: 0,
        payload: encode_test_echo_status_response_payload(5, b"ok"),
    };
    assert_eq!(
        single_echo_payload(&vec![frame.clone()]),
        Some(b"ok".to_vec())
    );
    assert_eq!(single_echo_payload(&vec![frame.clone(), frame]), None);
    assert_eq!(single_echo_payload(&Vec::new()), None);
    let short = Frame {
        message_type: 2,
        flags: 0,
        payload: vec![1],
    };
    assert_eq!(single_echo_payload(&vec![short]), None);
}
