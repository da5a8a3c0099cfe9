use iroh::SecretKey;
use zakura::bootstrap::{
    default_advertised_services, fresh_secret_key, parse_bootstrap_peer, parse_bootstrap_peers,
    split_bootstrap_entry, zakura_secret_key, ZakuraServiceId,
};
use zakura::error::ZakuraHandlerError;
use zakura::node::{
    dialed_ip, node_peer_id, parse_node_id, peer_node_id, NodeAddr, NodeId, SocketAddr,
};
use zakura::types::{IpAddr, ZakuraPeerId};

/// What the text after the first separator reads as.
fn direct_addr(entry: &str) -> Option<SocketAddr> {
    match split_bootstrap_entry(entry)? {
        (_, "127.0.0.1:8233") => Some(SocketAddr::new(IpAddr::V4(0x7f00_0001), 8233)),
        _ => None,
    }
}

fn parse(entry: &str) -> Result<NodeAddr, ZakuraHandlerError> {
    parse_bootstrap_peer(entry, direct_addr(entry))
}

#[test]
fn bootstrap_peer_requires_node_id_and_direct_address() {
    assert!(parse("missing-address").is_err());
    assert!(parse("not-a-node@127.0.0.1:8233").is_err());
}

#[test]
fn bootstrap_peer_parser_keeps_valid_entries_and_drops_invalid_entries() {
    let node_id = SecretKey::generate().public();
    let valid = format!("{node_id}@127.0.0.1:8233");
    let entries: Vec<(String, Option<SocketAddr>)> = [valid, "missing-address".to_string()]
        .into_iter()
        .map(|entry| {
            let addr = direct_addr(&entry);
            (entry, addr)
        })
        .collect();
    let parsed = parse_bootstrap_peers(&entries);

    assert_eq!(parsed.len(), 1);
    assert_eq!(parsed[0].node_id, NodeId(*node_id.as_bytes()));
}

#[test]
fn bootstrap_peer_splits_at_the_first_separator() {
    assert_eq!(split_bootstrap_entry("a@b@c"), Some(("a", "b@c")));
    assert_eq!(split_bootstrap_entry("\u{e4}@\u{f6}"), Some(("\u{e4}", "\u{f6}")));
    assert_eq!(split_bootstrap_entry("@"), Some(("", "")));
    assert_eq!(split_bootstrap_entry("ab"), None);

    let node_id = SecretKey::from_bytes(&[4; 32]).public();
    let addr = parse(&format!("{node_id}@127.0.0.1:8233")).expect("the entry is well formed");
    assert_eq!(
        addr.direct_addrs,
        vec![SocketAddr::new(IpAddr::V4(0x7f00_0001), 8233)]
    );
    assert_eq!(
        parse(&format!("{node_id}@nowhere")),
        Err(ZakuraHandlerError::InvalidBootstrapPeer)
    );
}

#[test]
fn node_ids_are_read_from_text_and_bytes() {
    let key = SecretKey::from_bytes(&[4; 32]).public();
    let node = parse_node_id(&key.to_string()).expect("the text names a key");
    assert_eq!(node, NodeId(*key.as_bytes()));
    assert_eq!(parse_node_id("zz"), None);

    let peer = node_peer_id(&node);
    assert_eq!(peer.as_bytes(), key.as_bytes());
    assert_eq!(peer_node_id(&peer), Some(node));
    assert_eq!(peer_node_id(&ZakuraPeerId::new(vec![4; 31])), None);
    // Two is the y coordinate of no curve point.
    let mut no_point = vec![0u8; 32];
    no_point[0] = 2;
    assert_eq!(peer_node_id(&ZakuraPeerId::new(no_point)), None);
}

#[test]
fn configured_secret_key_is_decoded() {
    let text = "0102".repeat(16);
    let mut expected = [1u8; 32];
    for at in (1..32).step_by(2) {
        expected[at] = 2;
    }
    assert_eq!(zakura_secret_key(Some(&text)), Ok(expected));
    assert_eq!(
        zakura_secret_key(Some("short")),
        Err(ZakuraHandlerError::InvalidSecretKey)
    );
}

#[test]
fn missing_secret_key_is_made_fresh() {
    let first = zakura_secret_key(None).expect("the system has random bytes");
    let second = zakura_secret_key(None).expect("the system has random bytes");
    assert_ne!(first, second);
    assert_ne!(first, [0; 32]);
    assert_eq!(fresh_secret_key(Some([3; 32])), Ok([3; 32]));
    assert_eq!(fresh_secret_key(None), Err(ZakuraHandlerError::Io));
}

#[test]
fn every_node_advertises_the_same_services() {
    assert_eq!(
        default_advertised_services(),
        vec![
            ZakuraServiceId::Discovery,
            ZakuraServiceId::LegacyGossip,
            ZakuraServiceId::LegacyRequests,
            ZakuraServiceId::ServiceDiscovery,
        ]
    );
}

#[test]
fn dialed_ip_is_the_least_direct_address() {
    let addr = |ip: IpAddr| SocketAddr::new(ip, 1);
    assert_eq!(dialed_ip(&Vec::new()), None);
    assert_eq!(
        dialed_ip(&vec![
            addr(IpAddr::V6(1)),
            addr(IpAddr::V4(9)),
            addr(IpAddr::V4(5)),
        ]),
        Some(IpAddr::V4(5))
    );
    assert_eq!(
        dialed_ip(&vec![addr(IpAddr::V6(3)), addr(IpAddr::V6(2))]),
        Some(IpAddr::V6(2))
    );
}

#[test]
fn scoped_addresses_keep_their_scope() {
    let node_id = SecretKey::from_bytes(&[4; 32]).public();
    let scoped = SocketAddr {
        ip: IpAddr::V6(0xfe80_0000_0000_0000_0000_0000_0000_0001),
        port: 8233,
        flowinfo: 7,
        scope_id: 3,
    };
    let entry = format!("{node_id}@[fe80::1%3]:8233");
    let addr = parse_bootstrap_peer(&entry, Some(scoped)).expect("the entry is well formed");
    assert_eq!(addr.direct_addrs, vec![scoped]);
}
