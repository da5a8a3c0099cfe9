//! Node identities and addresses.

use crate::types::{same_bytes_32, IpAddr, ZakuraPeerId};
use crate::vec_map::MapKey;
use vstd::prelude::*;

verus! {

/// The identity of a node: the bytes of its public key.
#[derive(Copy, Clone, Debug, PartialEq, Eq, Hash)]
pub struct NodeId(pub [u8; 32]);

impl View for NodeId {
    type V = NodeId;

    open spec fn view(&self) -> NodeId {
        *self
    }
}

impl MapKey for NodeId {
    fn same_key(&self, other: &Self) -> (same: bool) {
        same_bytes_32(&self.0, &other.0)
    }

    fn duplicate(&self) -> (copy: Self) {
        *self
    }
}

/// A socket address as plain bits.
#[derive(Copy, Clone, Debug, PartialEq, Eq, Hash, Structural)]
pub struct SocketAddr {
    /// The IP address.
    pub ip: IpAddr,
    /// The port.
    pub port: u16,
    /// The flow label and traffic class of an IPv6 address, zero otherwise.
    pub flowinfo: u32,
    /// The scope of an IPv6 address, zero otherwise.
    pub scope_id: u32,
}

impl SocketAddr {
    /// An address without flow label and scope.
    pub fn new(ip: IpAddr, port: u16) -> (addr: Self)
        ensures
            addr == (SocketAddr { ip, port, flowinfo: 0, scope_id: 0 }),
    {
        SocketAddr { ip, port, flowinfo: 0, scope_id: 0 }
    }
}

/// How to reach a node.
#[derive(Clone, Debug, PartialEq, Eq)]
pub struct NodeAddr {
    /// The node.
    pub node_id: NodeId,
    /// Its direct addresses.
    pub direct_addrs: Vec<SocketAddr>,
}

/// Whether thirty-two bytes are the encoding of a public key.
pub uninterp spec fn is_public_key(bytes: Seq<u8>) -> bool;

/// The bytes of the public key that a text names.
pub uninterp spec fn parsed_public_key(text: Seq<char>) -> Option<Seq<u8>>;

/// The bytes of the secret key that a text names.
pub uninterp spec fn parsed_secret_key(text: Seq<char>) -> Option<Seq<u8>>;

/// Whether bytes are a public key: calls `iroh::PublicKey::from_bytes`, which accepts the
/// bytes exactly when they decompress to a curve point, a function of the bytes alone.
#[verifier::external_body]
fn accepts_public_key(bytes: &[u8; 32]) -> (accepted: bool)
    ensures
        accepted == is_public_key(bytes@),
{
    iroh::PublicKey::from_bytes(bytes).is_ok()
}

/// Reads a public key from text: calls `iroh::PublicKey::from_str`, which decodes the text
/// as hex or base32 and returns the decoded bytes if `from_bytes` accepts them. The
/// result is a function of the text alone, and its bytes are those of a public key.
#[verifier::external_body]
fn decode_public_key(text: &str) -> (key: Option<[u8; 32]>)
    ensures
        match key {
            Some(key) => parsed_public_key(text@) == Some(key@) && is_public_key(key@),
            None => parsed_public_key(text@) is None,
        },
{
    text.parse::<iroh::PublicKey>().ok().map(|key| *key.as_bytes())
}

/// Reads a secret key from text: calls `iroh::SecretKey::from_str`, which decodes the text
/// as hex or base32 into thirty-two bytes. The result is a function of the text alone.
#[verifier::external_body]
fn decode_secret_key(text: &str) -> (key: Option<[u8; 32]>)
    ensures
        match key {
            Some(key) => parsed_secret_key(text@) == Some(key@),
            None => parsed_secret_key(text@) is None,
        },
{
    text.parse::<iroh::SecretKey>().ok().map(|key| key.to_bytes())
}

/// The node that `text` names.
pub fn parse_node_id(text: &str) -> (node: Option<NodeId>)
    ensures
        match node {
            Some(node) => parsed_public_key(text@) == Some(node.0@) && is_public_key(node.0@),
            None => parsed_public_key(text@) is None,
        },
{
    match decode_public_key(text) {
        Some(key) => Some(NodeId(key)),
        None => None,
    }
}

/// The secret key that `text` names.
pub fn parse_secret_key(text: &str) -> (key: Option<[u8; 32]>)
    ensures
        match key {
            Some(key) => parsed_secret_key(text@) == Some(key@),
            None => parsed_secret_key(text@) is None,
        },
{
    decode_secret_key(text)
}

/// The thirty-two bytes of an identity of that length.
pub fn identity_bytes(peer: &ZakuraPeerId) -> (bytes: Option<[u8; 32]>)
    ensures
        match bytes {
            Some(bytes) => bytes@ == peer@,
            None => peer@.len() != 32,
        },
{
    let source = peer.as_bytes();
    if source.len() != 32 {
        return None;
    }
    let mut bytes = [0u8; 32];
    let mut i: usize = 0;
    while i < 32
        invariant
            i <= 32,
            source@ == peer@,
            peer@.len() == 32,
            forall|j: int| 0 <= j < i ==> bytes@[j] == peer@[j],
        decreases 32 - i,
    {
        bytes[i] = source[i];
        i = i + 1;
    }
    assert(bytes@ =~= peer@);
    Some(bytes)
}

/// The node behind an authenticated identity, if the identity is a public key.
pub open spec fn node_of(peer: Seq<u8>, node: NodeId) -> bool {
    node.0@ == peer && is_public_key(peer)
}

/// The node behind an authenticated identity: its bytes, if they are a public key.
pub fn peer_node_id(peer: &ZakuraPeerId) -> (node: Option<NodeId>)
    ensures
        match node {
            Some(node) => node_of(peer@, node),
            None => peer@.len() != 32 || !is_public_key(peer@),
        },
{
    match identity_bytes(peer) {
        Some(bytes) => {
            if accepts_public_key(&bytes) {
                Some(NodeId(bytes))
            } else {
                None
            }
        },
        None => None,
    }
}

/// The identity under which a node authenticates.
pub fn node_peer_id(node: &NodeId) -> (peer: ZakuraPeerId)
    ensures
        peer@ == node.0@,
{
    ZakuraPeerId::new(crate::types::copy_bytes(node.0.as_slice()))
}

/// An authenticated identity names at most one node, and that node authenticates under
/// it.
pub proof fn law_identity_names_one_node(peer: Seq<u8>, first: NodeId, second: NodeId)
    requires
        node_of(peer, first),
        node_of(peer, second),
    ensures
        first == second,
{
    assert(first.0 =~= second.0);
}

/// Whether one address comes before another: IPv4 before IPv6, by value within each.
pub open spec fn ip_before(a: IpAddr, b: IpAddr) -> bool {
    match (a, b) {
        (IpAddr::V4(a), IpAddr::V4(b)) => a < b,
        (IpAddr::V4(_), IpAddr::V6(_)) => true,
        (IpAddr::V6(_), IpAddr::V4(_)) => false,
        (IpAddr::V6(a), IpAddr::V6(b)) => a < b,
    }
}

/// Whether one address comes before another.
fn is_before(a: IpAddr, b: IpAddr) -> (before: bool)
    ensures
        before == ip_before(a, b),
{
    match (a, b) {
        (IpAddr::V4(a), IpAddr::V4(b)) => a < b,
        (IpAddr::V4(_), IpAddr::V6(_)) => true,
        (IpAddr::V6(_), IpAddr::V4(_)) => false,
        (IpAddr::V6(a), IpAddr::V6(b)) => a < b,
    }
}

/// The IP address under which a dialed node is counted: the least of its direct
/// addresses.
pub fn dialed_ip(direct_addrs: &Vec<SocketAddr>) -> (ip: Option<IpAddr>)
    ensures
        match ip {
            Some(ip) => (exists|i: int|
                0 <= i < direct_addrs@.len() && (#[trigger] direct_addrs@[i]).ip == ip) && (forall|
                i: int,
            |
                0 <= i < direct_addrs@.len() ==> !ip_before((#[trigger] direct_addrs@[i]).ip, ip)),
            None => direct_addrs@.len() == 0,
        },
{
    if direct_addrs.len() == 0 {
        return None;
    }
    let mut least: IpAddr = direct_addrs[0].ip;
    let ghost mut at: int = 0;
    let mut i: usize = 1;
    while i < direct_addrs.len()
        invariant
            1 <= i <= direct_addrs@.len(),
            0 <= at < i,
            direct_addrs@[at].ip == least,
            forall|j: int| 0 <= j < i ==> !ip_before((#[trigger] direct_addrs@[j]).ip, least),
        decreases direct_addrs@.len() - i,
    {
        if is_before(direct_addrs[i].ip, least) {
            least = direct_addrs[i].ip;
            proof {
                at = i as int;
            }
        }
        i = i + 1;
    }
    Some(least)
}

} // verus!
