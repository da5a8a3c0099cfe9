//! The registry of connected peers.

use crate::connection::{CloseFrame, CloseReason};
use crate::limits;
use crate::streams::{ZAKURA_CLOSE_NEUTRAL, ZAKURA_CLOSE_RESOURCE};
use crate::types::{IpAddr, ZakuraPeerId};
use crate::vec_map::{MapKey, VecMap};
use vstd::prelude::*;

verus! {

/// The transcript hash of a connection that was not upgraded from a legacy one.
pub fn native_transcript_hash() -> (hash: [u8; 32])
    ensures
        hash@ == Seq::new(32, |i: int| 0u8),
{
    let hash = [0u8; 32];
    assert(hash@ =~= Seq::new(32, |i: int| 0u8));
    hash
}

/// Why a peer was not registered.
#[derive(Copy, Clone, Debug, PartialEq, Eq, Structural)]
pub enum ZakuraRejectReason {
    /// A local resource cap was reached.
    ResourceLimit,
    /// The peer supervisor refused, with its own reason code.
    Supervisor(u16),
}

/// What the peer supervisor says of an authenticated peer.
#[derive(Copy, Clone, Debug, PartialEq, Eq, Structural)]
pub enum ZakuraUpgradeOutcome {
    /// The peer is new.
    Upgraded,
    /// The peer is connected already.
    Duplicate,
    /// The peer is refused.
    Rejected {
        /// Why.
        reason: ZakuraRejectReason,
    },
}

/// How a registration ended.
#[derive(Copy, Clone, Debug, PartialEq, Eq, Structural)]
pub enum ZakuraRegistration {
    /// The peer is registered.
    Registered,
    /// The peer was registered already.
    Duplicate,
    /// The peer is refused.
    Rejected(ZakuraRejectReason),
}

/// What follows a registration.
#[derive(Copy, Clone, Debug, PartialEq, Eq, Structural)]
pub enum RegistrationStep {
    /// Serve the connection.
    Serve,
    /// Close the connection.
    Close(CloseFrame),
}

/// Decides what happens to a connection once its registration ended.
pub fn register_and_serve(registration: ZakuraRegistration) -> (step: RegistrationStep)
    ensures
        step == (match registration {
            ZakuraRegistration::Registered => RegistrationStep::Serve,
            ZakuraRegistration::Duplicate => RegistrationStep::Close(
                CloseFrame { code: ZAKURA_CLOSE_NEUTRAL, reason: CloseReason::Duplicate },
            ),
            ZakuraRegistration::Rejected(_) => RegistrationStep::Close(
                CloseFrame { code: ZAKURA_CLOSE_RESOURCE, reason: CloseReason::Registration },
            ),
        }),
{
    match registration {
        ZakuraRegistration::Registered => RegistrationStep::Serve,
        ZakuraRegistration::Duplicate => RegistrationStep::Close(
            CloseFrame { code: ZAKURA_CLOSE_NEUTRAL, reason: CloseReason::Duplicate },
        ),
        ZakuraRegistration::Rejected(_) => RegistrationStep::Close(
            CloseFrame { code: ZAKURA_CLOSE_RESOURCE, reason: CloseReason::Registration },
        ),
    }
}

/// How many entries are counted under an address.
pub open spec fn count_of(counts: Map<IpAddr, usize>, ip: IpAddr) -> nat {
    if counts.contains_key(ip) {
        counts[ip] as nat
    } else {
        0
    }
}

/// One more under an address.
pub open spec fn one_more(counts: Map<IpAddr, usize>, ip: IpAddr) -> Map<IpAddr, usize> {
    counts.insert(ip, (count_of(counts, ip) + 1) as usize)
}

/// One less under an address, which is forgotten when nothing is left.
pub open spec fn one_less(counts: Map<IpAddr, usize>, ip: IpAddr) -> Map<IpAddr, usize> {
    if !counts.contains_key(ip) {
        counts
    } else if counts[ip] <= 1 {
        counts.remove(ip)
    } else {
        counts.insert(ip, (counts[ip] - 1) as usize)
    }
}

/// The number stored under an address.
pub fn stored_count(counts: &VecMap<IpAddr, usize>, ip: IpAddr) -> (count: usize)
    requires
        counts.wf(),
    ensures
        count == count_of(counts@, ip),
{
    match counts.get(&ip) {
        Some(count) => *count,
        None => 0,
    }
}

/// Counts one more under an address.
pub fn count_one_more(counts: &mut VecMap<IpAddr, usize>, ip: IpAddr)
    requires
        old(counts).wf(),
        count_of(old(counts)@, ip) < usize::MAX,
    ensures
        final(counts).wf(),
        final(counts)@ == one_more(old(counts)@, ip),
{
    let count: usize = stored_count(counts, ip);
    counts.insert(ip, count + 1);
}

/// Counts one less under an address.
pub fn count_one_less(counts: &mut VecMap<IpAddr, usize>, ip: IpAddr)
    requires
        old(counts).wf(),
    ensures
        final(counts).wf(),
        final(counts)@ == one_less(old(counts)@, ip),
{
    let count: Option<usize> = match counts.get(&ip) {
        Some(count) => Some(*count),
        None => None,
    };
    if let Some(count) = count {
        if count <= 1 {
            counts.remove(&ip);
        } else {
            counts.insert(ip, count - 1);
        }
    }
}

/// What the registry holds.
pub struct SupervisorView<H> {
    /// The transcript hash of each registered peer.
    pub active_by_peer: Map<Seq<u8>, [u8; 32]>,
    /// The outbound handle of each registered peer.
    pub outbound_by_peer: Map<Seq<u8>, H>,
    /// The number of connections of each address.
    pub active_by_ip: Map<IpAddr, usize>,
    /// The most connections of one address.
    pub max_connections_per_ip: usize,
}

impl<H> SupervisorView<H> {
    /// Whether another connection of `remote_ip` may be registered. Connections of an
    /// unknown address are not counted.
    pub open spec fn has_room_for(self, remote_ip: Option<IpAddr>) -> bool {
        match remote_ip {
            Some(ip) => count_of(self.active_by_ip, ip) < self.max_connections_per_ip,
            None => true,
        }
    }

    /// The registry with one more peer.
    pub open spec fn with_peer(
        self,
        peer: Seq<u8>,
        remote_ip: Option<IpAddr>,
        transcript_hash: [u8; 32],
        handle: H,
    ) -> SupervisorView<H> {
        SupervisorView {
            active_by_peer: self.active_by_peer.insert(peer, transcript_hash),
            outbound_by_peer: self.outbound_by_peer.insert(peer, handle),
            active_by_ip: match remote_ip {
                Some(ip) => one_more(self.active_by_ip, ip),
                None => self.active_by_ip,
            },
            max_connections_per_ip: self.max_connections_per_ip,
        }
    }

    /// The registry without a peer.
    pub open spec fn without_peer(self, peer: Seq<u8>, remote_ip: Option<IpAddr>) -> SupervisorView<
        H,
    > {
        SupervisorView {
            active_by_peer: self.active_by_peer.remove(peer),
            outbound_by_peer: self.outbound_by_peer.remove(peer),
            active_by_ip: match remote_ip {
                Some(ip) => one_less(self.active_by_ip, ip),
                None => self.active_by_ip,
            },
            max_connections_per_ip: self.max_connections_per_ip,
        }
    }

    /// Every registered peer has a handle, every counted address has at least one
    /// connection and none more than the cap.
    pub open spec fn consistent(self) -> bool {
        &&& self.max_connections_per_ip >= 1
        &&& self.active_by_peer.dom() =~= self.outbound_by_peer.dom()
        &&& forall|ip: IpAddr| #[trigger]
            self.active_by_ip.contains_key(ip) ==> 1 <= self.active_by_ip[ip]
                <= self.max_connections_per_ip
    }
}

/// The registry of connected peers, with a handle of type `H` for each.
#[derive(Debug)]
pub struct ZakuraSupervisorState<H> {
    active_by_peer: VecMap<ZakuraPeerId, [u8; 32]>,
    outbound_by_peer: VecMap<ZakuraPeerId, H>,
    active_by_ip: VecMap<IpAddr, usize>,
    max_connections_per_ip: usize,
}

impl<H> View for ZakuraSupervisorState<H> {
    type V = SupervisorView<H>;

    closed spec fn view(&self) -> SupervisorView<H> {
        SupervisorView {
            active_by_peer: self.active_by_peer@,
            outbound_by_peer: self.outbound_by_peer@,
            active_by_ip: self.active_by_ip@,
            max_connections_per_ip: self.max_connections_per_ip,
        }
    }
}

impl<H> ZakuraSupervisorState<H> {
    /// The maps hold each key once and agree with each other.
    pub closed spec fn wf(&self) -> bool {
        &&& self.active_by_peer.wf()
        &&& self.outbound_by_peer.wf()
        &&& self.active_by_ip.wf()
        &&& self@.consistent()
    }

    /// Whatever was registered and deregistered, every registered peer has a handle and no
    /// address is counted beyond the cap.
    pub proof fn law_registry_is_consistent(&self)
        requires
            self.wf(),
        ensures
            self@.consistent(),
    {
    }

    /// An empty registry. At least one connection per address is allowed.
    pub fn new(max_connections_per_ip: usize) -> (state: Self)
        ensures
            state.wf(),
            state@.active_by_peer == Map::<Seq<u8>, [u8; 32]>::empty(),
            state@.outbound_by_peer == Map::<Seq<u8>, H>::empty(),
            state@.active_by_ip == Map::<IpAddr, usize>::empty(),
            state@.max_connections_per_ip == limits::at_least_one(max_connections_per_ip as int),
    {
        ZakuraSupervisorState {
            active_by_peer: VecMap::new(),
            outbound_by_peer: VecMap::new(),
            active_by_ip: VecMap::new(),
            max_connections_per_ip: if max_connections_per_ip == 0 {
                1
            } else {
                max_connections_per_ip
            },
        }
    }

    /// Whether a peer is registered.
    pub fn is_registered(&self, peer: &ZakuraPeerId) -> (registered: bool)
        requires
            self.wf(),
        ensures
            registered == self@.active_by_peer.contains_key(peer@),
    {
        self.active_by_peer.contains_key(peer)
    }

    /// The identities of the registered peers, each once.
    pub fn registered_ids(&self) -> (ids: Vec<ZakuraPeerId>)
        requires
            self.wf(),
        ensures
            ids@.len() == self@.active_by_peer.len(),
            forall|i: int|
                0 <= i < ids@.len() ==> self@.active_by_peer.contains_key((#[trigger] ids@[i])@),
            forall|i: int, j: int|
                0 <= i < j < ids@.len() ==> (#[trigger] ids@[i])@ != (#[trigger] ids@[j])@,
            forall|peer: Seq<u8>| #[trigger]
                self@.active_by_peer.contains_key(peer) ==> exists|i: int|
                    0 <= i < ids@.len() && (#[trigger] ids@[i])@ == peer,
    {
        let mut ids: Vec<ZakuraPeerId> = Vec::new();
        let len: usize = self.active_by_peer.len();
        let mut i: usize = 0;
        while i < len
            invariant
                i <= len,
                self.wf(),
                len == self.active_by_peer.order().len(),
                ids@.len() == i,
                forall|j: int|
                    0 <= j < i ==> (#[trigger] ids@[j])@ == self.active_by_peer.order()[j].0,
            decreases len - i,
        {
            ids.push(self.active_by_peer.key_at(i).duplicate());
            i = i + 1;
        }
        proof {
            self.active_by_peer.lemma_view();
            assert forall|peer: Seq<u8>| #[trigger]
                self@.active_by_peer.contains_key(peer) implies exists|i: int|
                0 <= i < ids@.len() && (#[trigger] ids@[i])@ == peer by {
                let at = choose|at: int|
                    0 <= at < self.active_by_peer.order().len() && (
                    #[trigger] self.active_by_peer.order()[at]).0 == peer;
                assert(ids@[at]@ == peer);
            }
        }
        ids
    }

    /// The number of registered handles.
    pub fn outbound_len(&self) -> (len: usize)
        requires
            self.wf(),
        ensures
            len == self@.outbound_by_peer.len(),
            len == self.outbound_order().len(),
    {
        self.outbound_by_peer.len()
    }

    /// The registered handles with their peers, in order.
    pub closed spec fn outbound_order(&self) -> Seq<(Seq<u8>, H)> {
        self.outbound_by_peer.order()
    }

    /// The registered handle at a position.
    pub fn outbound_at(&self, index: usize) -> (handle: &H)
        requires
            self.wf(),
            index < self.outbound_order().len(),
        ensures
            *handle == self.outbound_order()[index as int].1,
            self@.outbound_by_peer.contains_key(self.outbound_order()[index as int].0),
            *handle == self@.outbound_by_peer[self.outbound_order()[index as int].0],
    {
        proof {
            self.outbound_by_peer.lemma_view();
        }
        self.outbound_by_peer.value_at(index)
    }

    /// Whether another connection of `remote_ip` may be registered.
    pub fn has_room_for(&self, remote_ip: Option<IpAddr>) -> (room: bool)
        requires
            self.wf(),
        ensures
            room == self@.has_room_for(remote_ip),
    {
        match remote_ip {
            Some(ip) => stored_count(&self.active_by_ip, ip) < self.max_connections_per_ip,
            None => true,
        }
    }

    /// Registers an authenticated peer. An address at its cap is refused whatever the
    /// peer supervisor says; otherwise `outcome`, what the peer supervisor says, decides.
    pub fn register(
        &mut self,
        peer: &ZakuraPeerId,
        remote_ip: Option<IpAddr>,
        transcript_hash: [u8; 32],
        handle: H,
        outcome: ZakuraUpgradeOutcome,
    ) -> (registration: ZakuraRegistration)
        requires
            old(self).wf(),
        ensures
            final(self).wf(),
            registration == (if !old(self)@.has_room_for(remote_ip) {
                ZakuraRegistration::Rejected(ZakuraRejectReason::ResourceLimit)
            } else {
                match outcome {
                    ZakuraUpgradeOutcome::Upgraded => ZakuraRegistration::Registered,
                    ZakuraUpgradeOutcome::Duplicate => ZakuraRegistration::Duplicate,
                    ZakuraUpgradeOutcome::Rejected { reason } => ZakuraRegistration::Rejected(
                        reason,
                    ),
                }
            }),
            final(self)@ == (if registration == ZakuraRegistration::Registered {
                old(self)@.with_peer(peer@, remote_ip, transcript_hash, handle)
            } else {
                old(self)@
            }),
    {
        if !self.has_room_for(remote_ip) {
            return ZakuraRegistration::Rejected(ZakuraRejectReason::ResourceLimit);
        }
        match outcome {
            ZakuraUpgradeOutcome::Upgraded => {
                if let Some(ip) = remote_ip {
                    count_one_more(&mut self.active_by_ip, ip);
                }
                self.active_by_peer.insert(peer.duplicate(), transcript_hash);
                self.outbound_by_peer.insert(peer.duplicate(), handle);
                ZakuraRegistration::Registered
            },
            ZakuraUpgradeOutcome::Duplicate => ZakuraRegistration::Duplicate,
            ZakuraUpgradeOutcome::Rejected { reason } => ZakuraRegistration::Rejected(reason),
        }
    }

    /// Forgets a peer and its connection.
    pub fn deregister(&mut self, peer: &ZakuraPeerId, remote_ip: Option<IpAddr>)
        requires
            old(self).wf(),
        ensures
            final(self).wf(),
            final(self)@ == old(self)@.without_peer(peer@, remote_ip),
    {
        self.active_by_peer.remove(peer);
        self.outbound_by_peer.remove(peer);
        if let Some(ip) = remote_ip {
            count_one_less(&mut self.active_by_ip, ip);
        }
        proof {
            assert(old(self)@.consistent());
            assert(self@.active_by_peer.dom() =~= self@.outbound_by_peer.dom());
            assert forall|ip: IpAddr| #[trigger] self@.active_by_ip.contains_key(ip) implies 1
                <= self@.active_by_ip[ip] <= self@.max_connections_per_ip by {
                assert(old(self)@.active_by_ip.contains_key(ip));
            }
        }
    }

    /// Whether another dial of `remote_ip` may start while `in_flight_count` are under
    /// way.
    pub fn can_accept_remote_ip_with_in_flight(
        &self,
        remote_ip: IpAddr,
        in_flight_count: usize,
    ) -> (accepted: bool)
        requires
            self.wf(),
        ensures
            accepted == (count_of(self@.active_by_ip, remote_ip) + in_flight_count
                < self@.max_connections_per_ip),
    {
        let active: usize = stored_count(&self.active_by_ip, remote_ip);
        active < self.max_connections_per_ip && in_flight_count < self.max_connections_per_ip
            - active
    }
}

/// No address ever has more registered connections than the cap: registering where there
/// is room and deregistering both keep it.
pub proof fn law_ip_cap_holds<H>(
    state: SupervisorView<H>,
    peer: Seq<u8>,
    remote_ip: Option<IpAddr>,
    transcript_hash: [u8; 32],
    handle: H,
)
    requires
        state.consistent(),
    ensures
        state.has_room_for(remote_ip) ==> state.with_peer(
            peer,
            remote_ip,
            transcript_hash,
            handle,
        ).consistent(),
        state.without_peer(peer, remote_ip).consistent(),
        forall|ip: IpAddr| count_of(state.active_by_ip, ip) <= state.max_connections_per_ip,
{
}

/// Deregistering a peer undoes its registration.
pub proof fn law_deregister_undoes_register<H>(
    state: SupervisorView<H>,
    peer: Seq<u8>,
    remote_ip: Option<IpAddr>,
    transcript_hash: [u8; 32],
    handle: H,
)
    requires
        state.consistent(),
        state.has_room_for(remote_ip),
        !state.active_by_peer.contains_key(peer),
    ensures
        state.with_peer(peer, remote_ip, transcript_hash, handle).without_peer(peer, remote_ip)
            == state,
{
    let after = state.with_peer(peer, remote_ip, transcript_hash, handle).without_peer(
        peer,
        remote_ip,
    );
    assert(!state.outbound_by_peer.dom().contains(peer));
    assert(after.active_by_peer =~= state.active_by_peer);
    assert(after.outbound_by_peer =~= state.outbound_by_peer);
    assert(after.active_by_ip =~= state.active_by_ip);
}

/// Registering one peer leaves every other peer as it was.
pub proof fn law_peers_are_independent<H>(
    state: SupervisorView<H>,
    peer: Seq<u8>,
    other: Seq<u8>,
    remote_ip: Option<IpAddr>,
    transcript_hash: [u8; 32],
    handle: H,
)
    requires
        peer != other,
    ensures
        ({
            let added = state.with_peer(peer, remote_ip, transcript_hash, handle);
            let removed = state.without_peer(peer, remote_ip);
            &&& added.active_by_peer.contains_key(other) == state.active_by_peer.contains_key(other)
            &&& removed.active_by_peer.contains_key(other) == state.active_by_peer.contains_key(
                other,
            )
            &&& state.active_by_peer.contains_key(other) ==> added.active_by_peer[other]
                == state.active_by_peer[other] && removed.active_by_peer[other]
                == state.active_by_peer[other]
            &&& state.outbound_by_peer.contains_key(other) ==> added.outbound_by_peer[other]
                == state.outbound_by_peer[other] && removed.outbound_by_peer[other]
                == state.outbound_by_peer[other]
        }),
{
}

/// A registered peer is there with its transcript and its handle, its address counts one
/// connection more, and no other address is counted differently. There is room for it exactly
/// while its address has fewer connections than the cap.
pub proof fn law_registered_peers_are_counted<H>(
    state: SupervisorView<H>,
    peer: Seq<u8>,
    remote_ip: Option<IpAddr>,
    transcript_hash: [u8; 32],
    handle: H,
    other: IpAddr,
)
    requires
        state.consistent(),
    ensures
        ({
            let before = if state.active_by_ip.contains_key(other) {
                state.active_by_ip[other] as int
            } else {
                0
            };
            let added = state.with_peer(peer, remote_ip, transcript_hash, handle);
            let after = if added.active_by_ip.contains_key(other) {
                added.active_by_ip[other] as int
            } else {
                0
            };
            &&& state.has_room_for(None)
            &&& state.has_room_for(Some(other)) <==> before < state.max_connections_per_ip
            &&& added.active_by_peer.contains_key(peer) && added.active_by_peer[peer]
                == transcript_hash
            &&& added.outbound_by_peer.contains_key(peer) && added.outbound_by_peer[peer] == handle
            &&& added.max_connections_per_ip == state.max_connections_per_ip
            &&& remote_ip == Some(other) && state.has_room_for(remote_ip) ==> after == before + 1
            &&& remote_ip != Some(other) ==> after == before
        }),
{
}

/// A peer that was deregistered is gone, its address counts one connection less, and no other
/// address is counted differently.
pub proof fn law_deregistered_peers_are_gone<H>(
    state: SupervisorView<H>,
    peer: Seq<u8>,
    remote_ip: Option<IpAddr>,
    other: IpAddr,
)
    requires
        state.consistent(),
    ensures
        ({
            let before = if state.active_by_ip.contains_key(other) {
                state.active_by_ip[other] as int
            } else {
                0
            };
            let removed = state.without_peer(peer, remote_ip);
            let after = if removed.active_by_ip.contains_key(other) {
                removed.active_by_ip[other] as int
            } else {
                0
            };
            &&& !removed.active_by_peer.contains_key(peer)
            &&& !removed.outbound_by_peer.contains_key(peer)
            &&& removed.max_connections_per_ip == state.max_connections_per_ip
            &&& remote_ip == Some(other) && before > 0 ==> after == before - 1
            &&& remote_ip == Some(other) && before == 0 ==> after == 0
            &&& remote_ip != Some(other) ==> after == before
            &&& after == 0 ==> !removed.active_by_ip.contains_key(other)
        }),
{
}

} // verus!
