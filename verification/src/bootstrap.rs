//! Configured bootstrap peers and node keys.

use crate::error::ZakuraHandlerError;
use crate::node::{self, parse_node_id, parse_secret_key, NodeAddr, SocketAddr};
use crate::random::random_bytes_32;
use vstd::prelude::*;

verus! {

/// What stands between the node id and the address of a bootstrap peer.
pub const BOOTSTRAP_SEPARATOR: char = '@';

/// Whether `entry` is `before`, the separator and `after`, with no separator in `before`.
pub open spec fn splits_as(entry: Seq<char>, before: Seq<char>, after: Seq<char>) -> bool {
    entry == before.push(BOOTSTRAP_SEPARATOR) + after && !before.contains(BOOTSTRAP_SEPARATOR)
}

/// Splits an entry at its first separator.
pub fn split_bootstrap_entry(entry: &str) -> (parts: Option<(&str, &str)>)
    ensures
        match parts {
            Some((before, after)) => splits_as(entry@, before@, after@),
            None => !entry@.contains(BOOTSTRAP_SEPARATOR),
        },
{
    let len: usize = entry.unicode_len();
    let mut i: usize = 0;
    while i < len
        invariant
            i <= len,
            len == entry@.len(),
            forall|j: int| 0 <= j < i ==> entry@[j] != BOOTSTRAP_SEPARATOR,
        decreases len - i,
    {
        if entry.get_char(i) == BOOTSTRAP_SEPARATOR {
            let before = entry.substring_char(0, i);
            let after = entry.substring_char(i + 1, len);
            assert(entry@ =~= before@.push(BOOTSTRAP_SEPARATOR) + after@);
            return Some((before, after));
        }
        i = i + 1;
    }
    None
}

/// An entry splits in at most one way.
pub proof fn law_entries_split_once(
    entry: Seq<char>,
    before: Seq<char>,
    after: Seq<char>,
    other_before: Seq<char>,
    other_after: Seq<char>,
)
    requires
        splits_as(entry, before, after),
        splits_as(entry, other_before, other_after),
    ensures
        before == other_before,
        after == other_after,
{
    if before.len() < other_before.len() {
        assert(other_before[before.len() as int] == entry[before.len() as int]);
        assert(other_before.contains(BOOTSTRAP_SEPARATOR));
    }
    if other_before.len() < before.len() {
        assert(before[other_before.len() as int] == entry[other_before.len() as int]);
        assert(before.contains(BOOTSTRAP_SEPARATOR));
    }
    assert forall|i: int| 0 <= i < before.len() implies before[i] == other_before[i] by {
        assert(before[i] == entry[i]);
        assert(other_before[i] == entry[i]);
    }
    assert(before =~= other_before);
    assert(entry.len() == before.len() + 1 + after.len());
    assert(entry.len() == other_before.len() + 1 + other_after.len());
    assert forall|i: int| 0 <= i < after.len() implies after[i] == other_after[i] by {
        assert(after[i] == entry[before.len() + 1 + i]);
        assert(other_after[i] == entry[before.len() + 1 + i]);
    }
    assert(after =~= other_after);
}

/// Whether `addr` is what an entry means whose address part reads as `direct_addr`.
pub open spec fn entry_means(
    entry: Seq<char>,
    direct_addr: Option<SocketAddr>,
    addr: NodeAddr,
) -> bool {
    exists|before: Seq<char>, after: Seq<char>| #[trigger]
        splits_as(entry, before, after) && node::parsed_public_key(before) == Some(
            addr.node_id.0@,
        ) && direct_addr == Some(addr.direct_addrs@[0]) && addr.direct_addrs@.len() == 1
}

/// Whether an entry whose address part reads as `direct_addr` is malformed.
pub open spec fn entry_is_malformed(entry: Seq<char>, direct_addr: Option<SocketAddr>) -> bool {
    direct_addr is None || forall|before: Seq<char>, after: Seq<char>| #[trigger]
        splits_as(entry, before, after) ==> node::parsed_public_key(before) is None
}

/// Parses a bootstrap peer: a node id, the separator and a direct address.
/// `direct_addr` is what the text after the first separator reads as.
pub fn parse_bootstrap_peer(entry: &str, direct_addr: Option<SocketAddr>) -> (parsed: Result<
    NodeAddr,
    ZakuraHandlerError,
>)
    ensures
        match parsed {
            Ok(addr) => entry_means(entry@, direct_addr, addr),
            Err(error) => error == ZakuraHandlerError::InvalidBootstrapPeer
                && entry_is_malformed(entry@, direct_addr),
        },
{
    let (before, after) = match split_bootstrap_entry(entry) {
        Some(parts) => parts,
        None => {
            proof {
                assert forall|b: Seq<char>, a: Seq<char>| #[trigger]
                    splits_as(entry@, b, a) implies node::parsed_public_key(b) is None by {
                    assert(entry@[b.len() as int] == BOOTSTRAP_SEPARATOR);
                }
            }
            return Err(ZakuraHandlerError::InvalidBootstrapPeer);
        },
    };
    let node_id = match parse_node_id(before) {
        Some(node_id) => node_id,
        None => {
            proof {
                assert forall|b: Seq<char>, a: Seq<char>| #[trigger]
                    splits_as(entry@, b, a) implies node::parsed_public_key(b) is None by {
                    law_entries_split_once(entry@, before@, after@, b, a);
                }
            }
            return Err(ZakuraHandlerError::InvalidBootstrapPeer);
        },
    };
    match direct_addr {
        Some(direct_addr) => {
            let mut direct_addrs: Vec<SocketAddr> = Vec::new();
            direct_addrs.push(direct_addr);
            let addr = NodeAddr { node_id, direct_addrs };
            assert(splits_as(entry@, before@, after@));
            Ok(addr)
        },
        None => Err(ZakuraHandlerError::InvalidBootstrapPeer),
    }
}

/// Whether `peers` are the well-formed entries, in order.
pub open spec fn entries_mean(
    entries: Seq<(String, Option<SocketAddr>)>,
    peers: Seq<NodeAddr>,
) -> bool
    decreases entries.len(),
{
    if entries.len() == 0 {
        peers.len() == 0
    } else {
        let last = entries.last();
        ||| entry_is_malformed(last.0@, last.1) && entries_mean(entries.drop_last(), peers)
        ||| peers.len() > 0 && entry_means(last.0@, last.1, peers.last()) && entries_mean(
            entries.drop_last(),
            peers.drop_last(),
        )
    }
}

/// Parses bootstrap peers, each with what its address part reads as. Well-formed
/// entries are kept in order and malformed ones dropped.
pub fn parse_bootstrap_peers(entries: &Vec<(String, Option<SocketAddr>)>) -> (peers: Vec<NodeAddr>)
    ensures
        entries_mean(entries@, peers@),
{
    let mut peers: Vec<NodeAddr> = Vec::new();
    let mut i: usize = 0;
    while i < entries.len()
        invariant
            i <= entries@.len(),
            entries_mean(entries@.take(i as int), peers@),
        decreases entries@.len() - i,
    {
        let ghost before = peers@;
        let parsed = parse_bootstrap_peer(entries[i].0.as_str(), entries[i].1);
        assert(entries@.take(i + 1).drop_last() =~= entries@.take(i as int));
        assert(entries@.take(i + 1).last() == entries@[i as int]);
        if let Ok(addr) = parsed {
            peers.push(addr);
            assert(peers@.drop_last() =~= before);
        }
        i = i + 1;
    }
    assert(entries@.take(i as int) =~= entries@);
    peers
}

/// No entry is both well formed and malformed, so what bootstrap entries mean is
/// determined.
pub proof fn law_entries_are_kept_or_dropped(
    entry: Seq<char>,
    direct_addr: Option<SocketAddr>,
    addr: NodeAddr,
)
    ensures
        !(entry_means(entry, direct_addr, addr) && entry_is_malformed(entry, direct_addr)),
{
}

/// The key of this node: the configured one, or a fresh one where none is configured.
/// A fresh key needs the operating system's random bytes.
pub fn zakura_secret_key(configured: Option<&str>) -> (key: Result<[u8; 32], ZakuraHandlerError>)
    ensures
        match configured {
            Some(text) => match key {
                Ok(key) => node::parsed_secret_key(text@) == Some(key@),
                Err(error) => error == ZakuraHandlerError::InvalidSecretKey
                    && node::parsed_secret_key(text@) is None,
            },
            None => key matches Err(error) ==> error == ZakuraHandlerError::Io,
        },
{
    match configured {
        Some(text) => match parse_secret_key(text) {
            Some(key) => Ok(key),
            None => Err(ZakuraHandlerError::InvalidSecretKey),
        },
        None => fresh_secret_key(random_bytes_32()),
    }
}

/// The key that random bytes make, an error where the operating system had none.
pub fn fresh_secret_key(bytes: Option<[u8; 32]>) -> (key: Result<[u8; 32], ZakuraHandlerError>)
    ensures
        key == (match bytes {
            Some(bytes) => Ok(bytes),
            None => Err(ZakuraHandlerError::Io),
        }),
{
    match bytes {
        Some(bytes) => Ok(bytes),
        None => Err(ZakuraHandlerError::Io),
    }
}

/// A service that a node can advertise.
#[derive(Copy, Clone, Debug, PartialEq, Eq, Structural)]
pub enum ZakuraServiceId {
    /// Peer discovery.
    Discovery,
    /// Legacy gossip.
    LegacyGossip,
    /// Legacy requests.
    LegacyRequests,
    /// Service discovery.
    ServiceDiscovery,
    /// A service outside the core set, by number.
    Other(u16),
}

/// The services that every node advertises.
pub fn default_advertised_services() -> (services: Vec<ZakuraServiceId>)
    ensures
        services@ == seq![
            ZakuraServiceId::Discovery,
            ZakuraServiceId::LegacyGossip,
            ZakuraServiceId::LegacyRequests,
            ZakuraServiceId::ServiceDiscovery,
        ],
{
    let mut services: Vec<ZakuraServiceId> = Vec::new();
    services.push(ZakuraServiceId::Discovery);
    services.push(ZakuraServiceId::LegacyGossip);
    services.push(ZakuraServiceId::LegacyRequests);
    services.push(ZakuraServiceId::ServiceDiscovery);
    assert(services@ =~= seq![
        ZakuraServiceId::Discovery,
        ZakuraServiceId::LegacyGossip,
        ZakuraServiceId::LegacyRequests,
        ZakuraServiceId::ServiceDiscovery,
    ]);
    services
}

} // verus!
