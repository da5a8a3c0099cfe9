//! Dials of discovered peers, within the caps on connections per address.

use crate::error::ZakuraHandlerError;
use crate::node::{NodeAddr, NodeId, SocketAddr};
use crate::supervisor::{
    self, count_one_less, count_one_more, stored_count, ZakuraSupervisorState,
};
use crate::types::IpAddr;
use crate::vec_map::VecMap;
use vstd::prelude::*;

verus! {

/// How often the discovery dialer looks for candidates, in seconds.
pub const ZAKURA_DISCOVERY_DIAL_INTERVAL_SECS: u64 = 1;

/// How often an address occurs in a list.
pub open spec fn occurrences(ips: Seq<IpAddr>, ip: IpAddr) -> nat
    decreases ips.len(),
{
    if ips.len() == 0 {
        0
    } else {
        occurrences(ips.drop_last(), ip) + (if ips.last() == ip {
            1nat
        } else {
            0
        })
    }
}

/// The counts with one more for each listed address.
pub open spec fn reserved(counts: Map<IpAddr, usize>, ips: Seq<IpAddr>) -> Map<IpAddr, usize> {
    Map::new(
        |ip: IpAddr| counts.contains_key(ip) || occurrences(ips, ip) > 0,
        |ip: IpAddr| (supervisor::count_of(counts, ip) + occurrences(ips, ip)) as usize,
    )
}

/// The counts with one less for each listed address; an address is forgotten when nothing
/// is left of it.
pub open spec fn released(counts: Map<IpAddr, usize>, ips: Seq<IpAddr>) -> Map<IpAddr, usize> {
    Map::new(
        |ip: IpAddr|
            counts.contains_key(ip) && (occurrences(ips, ip) == 0 || counts[ip] > occurrences(
                ips,
                ip,
            )),
        |ip: IpAddr| (counts[ip] - occurrences(ips, ip)) as usize,
    )
}

/// Every counted address is counted at least once.
pub open spec fn positive(counts: Map<IpAddr, usize>) -> bool {
    forall|ip: IpAddr| #[trigger] counts.contains_key(ip) ==> counts[ip] >= 1
}

/// No count overflows when the listed addresses are reserved.
pub open spec fn reservable(counts: Map<IpAddr, usize>, ips: Seq<IpAddr>) -> bool {
    forall|ip: IpAddr|
        supervisor::count_of(counts, ip) + #[trigger] occurrences(ips, ip) <= usize::MAX
}

/// One more element adds one occurrence of itself.
proof fn lemma_occurrences_step(ips: Seq<IpAddr>, i: int)
    requires
        0 <= i < ips.len(),
    ensures
        forall|ip: IpAddr| #[trigger]
            occurrences(ips.take(i + 1), ip) == occurrences(ips.take(i), ip) + (if ips[i] == ip {
                1nat
            } else {
                0
            }),
{
    assert(ips.take(i + 1).drop_last() =~= ips.take(i));
}

/// A prefix holds no more occurrences than the whole.
proof fn lemma_occurrences_prefix(ips: Seq<IpAddr>, i: int, ip: IpAddr)
    requires
        0 <= i <= ips.len(),
    ensures
        occurrences(ips.take(i), ip) <= occurrences(ips, ip),
    decreases ips.len() - i,
{
    if i < ips.len() {
        lemma_occurrences_step(ips, i);
        lemma_occurrences_prefix(ips, i + 1, ip);
    } else {
        assert(ips.take(i) =~= ips);
    }
}

/// Reserves one in-flight dial for each listed address.
pub fn reserve_discovery_in_flight_ips(
    in_flight_by_ip: &mut VecMap<IpAddr, usize>,
    ips: &Vec<IpAddr>,
)
    requires
        old(in_flight_by_ip).wf(),
        reservable(old(in_flight_by_ip)@, ips@),
    ensures
        final(in_flight_by_ip).wf(),
        final(in_flight_by_ip)@ == reserved(old(in_flight_by_ip)@, ips@),
{
    let ghost before = in_flight_by_ip@;
    let mut i: usize = 0;
    assert(in_flight_by_ip@ =~= reserved(before, ips@.take(0)));
    while i < ips.len()
        invariant
            i <= ips@.len(),
            in_flight_by_ip.wf(),
            in_flight_by_ip@ == reserved(before, ips@.take(i as int)),
            reservable(before, ips@),
        decreases ips@.len() - i,
    {
        let ip = ips[i];
        proof {
            lemma_occurrences_step(ips@, i as int);
            lemma_occurrences_prefix(ips@, i + 1, ip);
            assert(supervisor::count_of(before, ip) + occurrences(ips@, ip) <= usize::MAX);
            assert(supervisor::count_of(in_flight_by_ip@, ip) == supervisor::count_of(before, ip)
                + occurrences(ips@.take(i as int), ip));
        }
        count_one_more(in_flight_by_ip, ip);
        i = i + 1;
        assert(in_flight_by_ip@ =~= reserved(before, ips@.take(i as int)));
    }
    assert(ips@.take(i as int) =~= ips@);
}

/// Releases one in-flight dial for each listed address.
pub fn release_discovery_in_flight_ips(
    in_flight_by_ip: &mut VecMap<IpAddr, usize>,
    ips: &Vec<IpAddr>,
)
    requires
        old(in_flight_by_ip).wf(),
    ensures
        final(in_flight_by_ip).wf(),
        final(in_flight_by_ip)@ == released(old(in_flight_by_ip)@, ips@),
{
    let ghost before = in_flight_by_ip@;
    let mut i: usize = 0;
    assert(in_flight_by_ip@ =~= released(before, ips@.take(0)));
    while i < ips.len()
        invariant
            i <= ips@.len(),
            in_flight_by_ip.wf(),
            in_flight_by_ip@ == released(before, ips@.take(i as int)),
        decreases ips@.len() - i,
    {
        let ip = ips[i];
        proof {
            lemma_occurrences_step(ips@, i as int);
        }
        count_one_less(in_flight_by_ip, ip);
        i = i + 1;
        assert(in_flight_by_ip@ =~= released(before, ips@.take(i as int)));
    }
    assert(ips@.take(i as int) =~= ips@);
}

/// Releasing what was reserved restores the counts.
pub proof fn law_release_undoes_reserve(counts: Map<IpAddr, usize>, ips: Seq<IpAddr>)
    requires
        positive(counts),
        reservable(counts, ips),
    ensures
        released(reserved(counts, ips), ips) == counts,
        positive(reserved(counts, ips)),
{
    assert forall|ip: IpAddr| #[trigger] reserved(counts, ips).contains_key(ip) implies reserved(
        counts,
        ips,
    )[ip] == supervisor::count_of(counts, ip) + occurrences(ips, ip) by {
        assert(supervisor::count_of(counts, ip) + occurrences(ips, ip) <= usize::MAX);
    }
    assert(released(reserved(counts, ips), ips) =~= counts);
}

/// Releasing keeps every count positive.
proof fn lemma_release_keeps_positive(counts: Map<IpAddr, usize>, ips: Seq<IpAddr>)
    requires
        positive(counts),
    ensures
        positive(released(counts, ips)),
{
}

/// Whether a dial of an address may start: the connections of that address and the dials
/// under way stay below the cap.
pub open spec fn ip_has_room(
    active: Map<IpAddr, usize>,
    max_connections_per_ip: usize,
    in_flight: Map<IpAddr, usize>,
    ip: IpAddr,
) -> bool {
    supervisor::count_of(active, ip) + supervisor::count_of(in_flight, ip) < max_connections_per_ip
}

/// The addresses of which a dial may start.
pub open spec fn with_room(
    active: Map<IpAddr, usize>,
    max_connections_per_ip: usize,
    in_flight: Map<IpAddr, usize>,
) -> spec_fn(SocketAddr) -> bool {
    |addr: SocketAddr| ip_has_room(active, max_connections_per_ip, in_flight, addr.ip)
}

/// The distinct IP addresses of a list, each at its first place.
pub open spec fn distinct_ips(addrs: Seq<SocketAddr>) -> Seq<IpAddr>
    decreases addrs.len(),
{
    if addrs.len() == 0 {
        Seq::empty()
    } else {
        let before = distinct_ips(addrs.drop_last());
        if before.contains(addrs.last().ip) {
            before
        } else {
            before.push(addrs.last().ip)
        }
    }
}

/// Whether an address is listed.
fn lists(ips: &Vec<IpAddr>, ip: IpAddr) -> (listed: bool)
    ensures
        listed == ips@.contains(ip),
{
    let mut i: usize = 0;
    while i < ips.len()
        invariant
            i <= ips@.len(),
            forall|j: int| 0 <= j < i ==> ips@[j] != ip,
        decreases ips@.len() - i,
    {
        if ips[i] == ip {
            return true;
        }
        i = i + 1;
    }
    false
}

/// Whether a dial of an address may start.
pub fn can_accept_discovery_dial_ip<H>(
    supervisor: &ZakuraSupervisorState<H>,
    remote_ip: IpAddr,
    in_flight_by_ip: &VecMap<IpAddr, usize>,
) -> (accepted: bool)
    requires
        supervisor.wf(),
        in_flight_by_ip.wf(),
    ensures
        accepted == ip_has_room(
            supervisor@.active_by_ip,
            supervisor@.max_connections_per_ip,
            in_flight_by_ip@,
            remote_ip,
        ),
{
    let in_flight: usize = stored_count(in_flight_by_ip, remote_ip);
    supervisor.can_accept_remote_ip_with_in_flight(remote_ip, in_flight)
}

/// How to dial a candidate: its addresses with room, in order, and the distinct IP
/// addresses to reserve. Nothing where no address has room.
pub fn discovery_node_addr_with_reserved_ip_capacity<H>(
    supervisor: &ZakuraSupervisorState<H>,
    node_id: NodeId,
    direct_addrs: &Vec<SocketAddr>,
    in_flight_by_ip: &VecMap<IpAddr, usize>,
) -> (dial: Option<(NodeAddr, Vec<IpAddr>)>)
    requires
        supervisor.wf(),
        in_flight_by_ip.wf(),
    ensures
        ({
            let usable = direct_addrs@.filter(
                with_room(
                    supervisor@.active_by_ip,
                    supervisor@.max_connections_per_ip,
                    in_flight_by_ip@,
                ),
            );
            match dial {
                Some((addr, ips)) => usable.len() > 0 && addr.node_id == node_id
                    && addr.direct_addrs@ == usable && ips@ == distinct_ips(usable),
                None => usable.len() == 0,
            }
        }),
{
    let ghost room = with_room(
        supervisor@.active_by_ip,
        supervisor@.max_connections_per_ip,
        in_flight_by_ip@,
    );
    let mut usable: Vec<SocketAddr> = Vec::new();
    let mut reserved_ips: Vec<IpAddr> = Vec::new();
    let mut i: usize = 0;
    proof {
        reveal(Seq::filter);
    }
    while i < direct_addrs.len()
        invariant
            i <= direct_addrs@.len(),
            supervisor.wf(),
            in_flight_by_ip.wf(),
            room == with_room(
                supervisor@.active_by_ip,
                supervisor@.max_connections_per_ip,
                in_flight_by_ip@,
            ),
            usable@ == direct_addrs@.take(i as int).filter(room),
            reserved_ips@ == distinct_ips(usable@),
        decreases direct_addrs@.len() - i,
    {
        let addr = direct_addrs[i];
        let ghost before = usable@;
        proof {
            reveal(Seq::filter);
            assert(direct_addrs@.take(i + 1).drop_last() =~= direct_addrs@.take(i as int));
        }
        if can_accept_discovery_dial_ip(supervisor, addr.ip, in_flight_by_ip) {
            if !lists(&reserved_ips, addr.ip) {
                reserved_ips.push(addr.ip);
            }
            usable.push(addr);
            assert(usable@.drop_last() =~= before);
        }
        i = i + 1;
    }
    assert(direct_addrs@.take(i as int) =~= direct_addrs@);
    if usable.len() == 0 {
        return None;
    }
    Some((NodeAddr { node_id, direct_addrs: usable }, reserved_ips))
}

/// An address occurs among the distinct ones once if it occurs at all.
proof fn lemma_distinct_ips(addrs: Seq<SocketAddr>, ip: IpAddr)
    ensures
        occurrences(distinct_ips(addrs), ip) <= 1,
        occurrences(distinct_ips(addrs), ip) == 1 <==> distinct_ips(addrs).contains(ip),
        distinct_ips(addrs).contains(ip) <==> exists|i: int|
            0 <= i < addrs.len() && (#[trigger] addrs[i]).ip == ip,
    decreases addrs.len(),
{
    if addrs.len() > 0 {
        let before = distinct_ips(addrs.drop_last());
        let last = addrs.last().ip;
        lemma_distinct_ips(addrs.drop_last(), ip);
        lemma_distinct_ips(addrs.drop_last(), last);
        assert(before.push(last).drop_last() =~= before);
        if before.contains(ip) {
            let at = choose|at: int| 0 <= at < before.len() && before[at] == ip;
            assert(before.push(last)[at] == ip);
            let i = choose|i: int|
                0 <= i < addrs.drop_last().len() && (#[trigger] addrs.drop_last()[i]).ip == ip;
            assert(addrs[i].ip == ip);
        }
        if ip == last {
            assert(addrs[addrs.len() - 1].ip == ip);
            assert(before.push(last)[before.len() as int] == ip);
        }
        if exists|i: int| 0 <= i < addrs.len() && (#[trigger] addrs[i]).ip == ip {
            let i = choose|i: int| 0 <= i < addrs.len() && (#[trigger] addrs[i]).ip == ip;
            if i < addrs.len() - 1 {
                assert(addrs.drop_last()[i].ip == ip);
            }
        }
        if before.push(last).contains(ip) && ip != last {
            let at = choose|at: int| 0 <= at < before.push(last).len() && before.push(last)[at] == ip;
            assert(before[at] == ip);
        }
    }
}

/// How the dial of a discovered peer ended.
#[derive(Copy, Clone, Debug, PartialEq, Eq, Structural)]
pub enum DiscoveryDialResult {
    /// The peer registered.
    Registered,
    /// The dial failed.
    Failed,
    /// A local cap refused the dial; the peer is not at fault.
    LocalResourceLimit,
}

/// What happened while a discovered peer was dialed.
#[derive(Copy, Clone, Debug, PartialEq, Eq)]
pub enum DiscoveryDialEvent {
    /// The registered peers were looked at.
    Looked {
        /// Whether the peer is among them.
        registered: bool,
    },
    /// The dial ended.
    DialEnded(Result<(), ZakuraHandlerError>),
    /// The dial task failed.
    TaskFailed,
    /// The source of registered peers ended.
    WatchClosed,
}

/// Judges a dial by what happened; nothing while it is still open. A dial succeeds only
/// when its peer registers.
pub fn run_discovery_dial_once(event: DiscoveryDialEvent) -> (result: Option<DiscoveryDialResult>)
    ensures
        result == (match event {
            DiscoveryDialEvent::Looked { registered } => if registered {
                Some(DiscoveryDialResult::Registered)
            } else {
                None
            },
            DiscoveryDialEvent::DialEnded(Err(ZakuraHandlerError::ResourceLimit(_))) => Some(
                DiscoveryDialResult::LocalResourceLimit,
            ),
            _ => Some(DiscoveryDialResult::Failed),
        }),
{
    match event {
        DiscoveryDialEvent::Looked { registered } => if registered {
            Some(DiscoveryDialResult::Registered)
        } else {
            None
        },
        DiscoveryDialEvent::DialEnded(Err(ZakuraHandlerError::ResourceLimit(_))) => Some(
            DiscoveryDialResult::LocalResourceLimit,
        ),
        _ => Some(DiscoveryDialResult::Failed),
    }
}

/// What the discovery book is told of a dial.
#[derive(Copy, Clone, Debug, PartialEq, Eq, Structural)]
pub enum DialBookUpdate {
    /// The dial succeeded.
    Success,
    /// The dial failed.
    Failure,
    /// Nothing.
    Nothing,
}

/// What the discovery book is told of a dial: a local cap is never held against the peer.
pub fn apply_discovery_dial_result(result: DiscoveryDialResult) -> (update: DialBookUpdate)
    ensures
        update == (match result {
            DiscoveryDialResult::Registered => DialBookUpdate::Success,
            DiscoveryDialResult::Failed => DialBookUpdate::Failure,
            DiscoveryDialResult::LocalResourceLimit => DialBookUpdate::Nothing,
        }),
{
    match result {
        DiscoveryDialResult::Registered => DialBookUpdate::Success,
        DiscoveryDialResult::Failed => DialBookUpdate::Failure,
        DiscoveryDialResult::LocalResourceLimit => DialBookUpdate::Nothing,
    }
}

/// What is done with a dial candidate.
#[derive(Debug)]
pub enum CandidateStep {
    /// There is no place for another connection: look no further.
    Stop,
    /// Take the next candidate.
    Skip,
    /// Dial it.
    Dial {
        /// How.
        node_addr: NodeAddr,
        /// What was reserved for the dial.
        reserved_ips: Vec<IpAddr>,
    },
}

/// What the dialer has under way.
pub struct DialerView {
    /// The nodes being dialed.
    pub in_flight: Set<NodeId>,
    /// The number of dials under way to each address.
    pub in_flight_by_ip: Map<IpAddr, usize>,
}

impl DialerView {
    /// The dialer once a dial of `node_id` with these reservations started.
    pub open spec fn started(self, node_id: NodeId, ips: Seq<IpAddr>) -> DialerView {
        DialerView {
            in_flight: self.in_flight.insert(node_id),
            in_flight_by_ip: reserved(self.in_flight_by_ip, ips),
        }
    }

    /// The dialer once a dial of `node_id` with these reservations ended.
    pub open spec fn ended(self, node_id: NodeId, ips: Seq<IpAddr>) -> DialerView {
        DialerView {
            in_flight: self.in_flight.remove(node_id),
            in_flight_by_ip: released(self.in_flight_by_ip, ips),
        }
    }
}

/// The dialer of discovered peers.
#[derive(Debug)]
pub struct DiscoveryDialer {
    in_flight: VecMap<NodeId, ()>,
    in_flight_by_ip: VecMap<IpAddr, usize>,
}

impl View for DiscoveryDialer {
    type V = DialerView;

    closed spec fn view(&self) -> DialerView {
        DialerView { in_flight: self.in_flight@.dom(), in_flight_by_ip: self.in_flight_by_ip@ }
    }
}

impl DiscoveryDialer {
    /// Keys are distinct and every counted address has a dial under way.
    pub closed spec fn wf(&self) -> bool {
        self.in_flight.wf() && self.in_flight_by_ip.wf() && positive(self.in_flight_by_ip@)
    }

    /// Whatever was reserved and released, every counted address has a dial under way.
    pub proof fn law_counted_addresses_have_dials(&self)
        requires
            self.wf(),
        ensures
            positive(self@.in_flight_by_ip),
    {
    }

    /// A dialer with nothing under way.
    pub fn new() -> (dialer: Self)
        ensures
            dialer.wf(),
            dialer@.in_flight == Set::<NodeId>::empty(),
            dialer@.in_flight_by_ip == Map::<IpAddr, usize>::empty(),
    {
        let dialer = DiscoveryDialer { in_flight: VecMap::new(), in_flight_by_ip: VecMap::new() };
        assert(dialer@.in_flight =~= Set::<NodeId>::empty());
        dialer
    }

    /// The nodes being dialed, each once.
    pub fn in_flight_node_ids(&self) -> (nodes: Vec<NodeId>)
        requires
            self.wf(),
        ensures
            nodes@.to_set() == self@.in_flight,
            nodes@.no_duplicates(),
    {
        let mut nodes: Vec<NodeId> = Vec::new();
        let len: usize = self.in_flight.len();
        let mut i: usize = 0;
        while i < len
            invariant
                i <= len,
                self.wf(),
                len == self.in_flight.order().len(),
                nodes@.len() == i,
                forall|j: int| 0 <= j < i ==> #[trigger] nodes@[j] == self.in_flight.order()[j].0,
            decreases len - i,
        {
            nodes.push(*self.in_flight.key_at(i));
            i = i + 1;
        }
        proof {
            self.in_flight.lemma_view();
            assert forall|node: NodeId| #[trigger]
                nodes@.to_set().contains(node) == self@.in_flight.contains(node) by {
                if self@.in_flight.contains(node) {
                    assert(self.in_flight@.contains_key(node));
                    let at = choose|at: int|
                        0 <= at < self.in_flight.order().len() && (
                        #[trigger] self.in_flight.order()[at]).0 == node;
                    assert(nodes@[at] == node);
                }
                if nodes@.contains(node) {
                    let at = choose|at: int| 0 <= at < nodes@.len() && nodes@[at] == node;
                    assert(self.in_flight.order()[at].0 == node);
                    assert(self.in_flight@.contains_key(node));
                }
            }
            assert(nodes@.to_set() =~= self@.in_flight);
            assert forall|a: int, b: int|
                0 <= a < nodes@.len() && 0 <= b < nodes@.len() && a != b implies nodes@[a]
                != nodes@[b] by {
                assert(nodes@[a] == self.in_flight.order()[a].0);
                assert(nodes@[b] == self.in_flight.order()[b].0);
                if a < b {
                    assert(self.in_flight.order()[a].0 != self.in_flight.order()[b].0);
                } else {
                    assert(self.in_flight.order()[b].0 != self.in_flight.order()[a].0);
                }
            }
        }
        nodes
    }

    /// Decides on one candidate: without a place for another connection no candidate is
    /// looked at any more; one without an address with room, or that is being dialed, is
    /// skipped; any other is dialed through its addresses with room, and those are
    /// reserved.
    pub fn consider<H>(
        &mut self,
        supervisor: &ZakuraSupervisorState<H>,
        has_place: bool,
        node_id: NodeId,
        direct_addrs: &Vec<SocketAddr>,
    ) -> (step: CandidateStep)
        requires
            old(self).wf(),
            supervisor.wf(),
        ensures
            final(self).wf(),
            ({
                let usable = direct_addrs@.filter(
                    with_room(
                        supervisor@.active_by_ip,
                        supervisor@.max_connections_per_ip,
                        old(self)@.in_flight_by_ip,
                    ),
                );
                match step {
                    CandidateStep::Stop => !has_place && final(self)@ == old(self)@,
                    CandidateStep::Skip => has_place && (usable.len() == 0
                        || old(self)@.in_flight.contains(node_id)) && final(self)@ == old(self)@,
                    CandidateStep::Dial { node_addr, reserved_ips } => {
                        &&& has_place
                        &&& usable.len() > 0
                        &&& !old(self)@.in_flight.contains(node_id)
                        &&& node_addr.node_id == node_id
                        &&& node_addr.direct_addrs@ == usable
                        &&& reserved_ips@ == distinct_ips(usable)
                        &&& final(self)@ == old(self)@.started(node_id, reserved_ips@)
                    },
                }
            }),
    {
        if !has_place {
            return CandidateStep::Stop;
        }
        let (node_addr, reserved_ips) = match discovery_node_addr_with_reserved_ip_capacity(
            supervisor,
            node_id,
            direct_addrs,
            &self.in_flight_by_ip,
        ) {
            Some(dial) => dial,
            None => return CandidateStep::Skip,
        };
        if self.in_flight.contains_key(&node_id) {
            return CandidateStep::Skip;
        }
        let ghost usable = node_addr.direct_addrs@;
        proof {
            lemma_reservable(
                direct_addrs@,
                supervisor@.active_by_ip,
                supervisor@.max_connections_per_ip,
                self.in_flight_by_ip@,
            );
            law_release_undoes_reserve(self.in_flight_by_ip@, reserved_ips@);
        }
        self.in_flight.insert(node_id, ());
        reserve_discovery_in_flight_ips(&mut self.in_flight_by_ip, &reserved_ips);
        assert(self@.in_flight =~= old(self)@.in_flight.insert(node_id));
        CandidateStep::Dial { node_addr, reserved_ips }
    }

    /// Ends a dial: its reservations are released, and the discovery book is told.
    pub fn finish(
        &mut self,
        node_id: NodeId,
        reserved_ips: &Vec<IpAddr>,
        result: DiscoveryDialResult,
    ) -> (update: DialBookUpdate)
        requires
            old(self).wf(),
        ensures
            final(self).wf(),
            final(self)@ == old(self)@.ended(node_id, reserved_ips@),
            update == (match result {
                DiscoveryDialResult::Registered => DialBookUpdate::Success,
                DiscoveryDialResult::Failed => DialBookUpdate::Failure,
                DiscoveryDialResult::LocalResourceLimit => DialBookUpdate::Nothing,
            }),
    {
        self.in_flight.remove(&node_id);
        proof {
            lemma_release_keeps_positive(self.in_flight_by_ip@, reserved_ips@);
        }
        release_discovery_in_flight_ips(&mut self.in_flight_by_ip, reserved_ips);
        assert(self@.in_flight =~= old(self)@.in_flight.remove(node_id));
        apply_discovery_dial_result(result)
    }
}

/// Every element of a filtered list meets the condition.
proof fn lemma_filtered(addrs: Seq<SocketAddr>, room: spec_fn(SocketAddr) -> bool)
    ensures
        forall|i: int| 0 <= i < addrs.filter(room).len() ==> room(#[trigger] addrs.filter(room)[i]),
    decreases addrs.len(),
{
    reveal(Seq::filter);
    if addrs.len() > 0 {
        lemma_filtered(addrs.drop_last(), room);
    }
}

/// The distinct addresses with room can all be reserved, within the cap.
proof fn lemma_reservable(
    addrs: Seq<SocketAddr>,
    active: Map<IpAddr, usize>,
    max_connections_per_ip: usize,
    in_flight: Map<IpAddr, usize>,
)
    ensures
        ({
            let ips = distinct_ips(addrs.filter(with_room(active, max_connections_per_ip, in_flight)));
            &&& reservable(in_flight, ips)
            &&& forall|ip: IpAddr| #[trigger]
                ips.contains(ip) ==> occurrences(ips, ip) == 1 && ip_has_room(
                    active,
                    max_connections_per_ip,
                    in_flight,
                    ip,
                )
        }),
{
    let room = with_room(active, max_connections_per_ip, in_flight);
    let usable = addrs.filter(room);
    let ips = distinct_ips(usable);
    lemma_filtered(addrs, room);
    assert forall|ip: IpAddr| #[trigger] ips.contains(ip) implies occurrences(ips, ip) == 1
        && ip_has_room(active, max_connections_per_ip, in_flight, ip) by {
        lemma_distinct_ips(usable, ip);
        let i = choose|i: int| 0 <= i < usable.len() && (#[trigger] usable[i]).ip == ip;
        assert(room(usable[i]));
    }
    assert forall|ip: IpAddr|
        supervisor::count_of(in_flight, ip) + #[trigger] occurrences(ips, ip) <= usize::MAX by {
        lemma_distinct_ips(usable, ip);
        if ips.contains(ip) {
            assert(ip_has_room(active, max_connections_per_ip, in_flight, ip));
        }
    }
}

/// A dial never exceeds the cap of an address: with its reservations, the connections and
/// the dials under way of each reserved address are at most the cap, and no other
/// address is counted differently.
pub proof fn law_dials_respect_ip_cap(
    addrs: Seq<SocketAddr>,
    active: Map<IpAddr, usize>,
    max_connections_per_ip: usize,
    in_flight: Map<IpAddr, usize>,
    ip: IpAddr,
)
    ensures
        ({
            let ips = distinct_ips(addrs.filter(with_room(active, max_connections_per_ip, in_flight)));
            let after = supervisor::count_of(reserved(in_flight, ips), ip);
            if ips.contains(ip) {
                after == supervisor::count_of(in_flight, ip) + 1 && supervisor::count_of(active, ip)
                    + after <= max_connections_per_ip
            } else {
                after == supervisor::count_of(in_flight, ip)
            }
        }),
{
    let usable = addrs.filter(with_room(active, max_connections_per_ip, in_flight));
    lemma_reservable(addrs, active, max_connections_per_ip, in_flight);
    lemma_distinct_ips(usable, ip);
    assert(supervisor::count_of(in_flight, ip) + occurrences(distinct_ips(usable), ip)
        <= usize::MAX);
}

/// A dial that ended leaves no trace: ending it restores what was under way before it
/// started.
pub proof fn law_ended_dial_leaves_no_trace(
    dialer: DialerView,
    node_id: NodeId,
    addrs: Seq<SocketAddr>,
    active: Map<IpAddr, usize>,
    max_connections_per_ip: usize,
)
    requires
        positive(dialer.in_flight_by_ip),
        !dialer.in_flight.contains(node_id),
    ensures
        ({
            let ips = distinct_ips(
                addrs.filter(with_room(active, max_connections_per_ip, dialer.in_flight_by_ip)),
            );
            dialer.started(node_id, ips).ended(node_id, ips) == dialer
        }),
{
    let ips = distinct_ips(
        addrs.filter(with_room(active, max_connections_per_ip, dialer.in_flight_by_ip)),
    );
    lemma_reservable(addrs, active, max_connections_per_ip, dialer.in_flight_by_ip);
    law_release_undoes_reserve(dialer.in_flight_by_ip, ips);
    assert(dialer.started(node_id, ips).ended(node_id, ips).in_flight =~= dialer.in_flight);
}

/// Every address of a candidate that has room is dialed, and none without: one has room while
/// its connections and the dials under way are fewer than the cap.
pub proof fn law_addresses_with_room_are_dialed(
    addrs: Seq<SocketAddr>,
    active: Map<IpAddr, usize>,
    max_connections_per_ip: usize,
    in_flight: Map<IpAddr, usize>,
    addr: SocketAddr,
)
    ensures
        ({
            let connections = if active.contains_key(addr.ip) {
                active[addr.ip] as int
            } else {
                0
            };
            let dials = if in_flight.contains_key(addr.ip) {
                in_flight[addr.ip] as int
            } else {
                0
            };
            addrs.filter(with_room(active, max_connections_per_ip, in_flight)).contains(addr)
                <==> addrs.contains(addr) && connections + dials < max_connections_per_ip
        }),
{
    let room = with_room(active, max_connections_per_ip, in_flight);
    let usable = addrs.filter(room);
    lemma_filtered(addrs, room);
    if usable.contains(addr) {
        let at = choose|at: int| 0 <= at < usable.len() && usable[at] == addr;
        assert(room(usable[at]));
        lemma_filter_is_part(addrs, room, at);
    }
    if addrs.contains(addr) && room(addr) {
        let at = choose|at: int| 0 <= at < addrs.len() && addrs[at] == addr;
        addrs.lemma_filter_contains(room, at);
    }
}

/// What a filter keeps was there.
proof fn lemma_filter_is_part(addrs: Seq<SocketAddr>, room: spec_fn(SocketAddr) -> bool, at: int)
    requires
        0 <= at < addrs.filter(room).len(),
    ensures
        addrs.contains(addrs.filter(room)[at]),
    decreases addrs.len(),
{
    reveal(Seq::filter);
    if addrs.len() > 0 {
        let before = addrs.drop_last();
        if at < before.filter(room).len() {
            lemma_filter_is_part(before, room, at);
            let value = before.filter(room)[at];
            let i = choose|i: int| 0 <= i < before.len() && before[i] == value;
            assert(addrs[i] == value);
        } else {
            assert(addrs[addrs.len() - 1] == addrs.last());
        }
    }
}

/// Each IP address of a dial is reserved once, however many of the dialed addresses have it.
pub proof fn law_dialed_addresses_are_reserved_once(addrs: Seq<SocketAddr>, ip: IpAddr)
    ensures
        distinct_ips(addrs).contains(ip) <==> exists|i: int|
            0 <= i < addrs.len() && (#[trigger] addrs[i]).ip == ip,
        occurrences(distinct_ips(addrs), ip) == (if distinct_ips(addrs).contains(ip) {
            1nat
        } else {
            0
        }),
{
    lemma_distinct_ips(addrs, ip);
}

/// A reservation counts once for each place of an address in the list, and a release takes
/// that back; an address of which nothing is left is forgotten.
pub proof fn law_reservations_are_counted(
    counts: Map<IpAddr, usize>,
    ips: Seq<IpAddr>,
    ip: IpAddr,
)
    requires
        positive(counts),
        reservable(counts, ips),
    ensures
        ({
            let before = if counts.contains_key(ip) {
                counts[ip] as int
            } else {
                0
            };
            let listed = occurrences(ips, ip);
            let more = reserved(counts, ips);
            let fewer = released(counts, ips);
            &&& more.contains_key(ip) <==> before + listed > 0
            &&& more.contains_key(ip) ==> more[ip] == before + listed
            &&& fewer.contains_key(ip) <==> before > listed
            &&& fewer.contains_key(ip) ==> fewer[ip] == before - listed
        }),
{
    assert(supervisor::count_of(counts, ip) + occurrences(ips, ip) <= usize::MAX);
}

/// A node that is being dialed is known to be until its dial ends, and the dials of other
/// nodes do not touch it.
pub proof fn law_dials_under_way_are_known(
    dialer: DialerView,
    node_id: NodeId,
    other: NodeId,
    ips: Seq<IpAddr>,
)
    ensures
        dialer.started(node_id, ips).in_flight.contains(node_id),
        !dialer.ended(node_id, ips).in_flight.contains(node_id),
        other != node_id ==> dialer.started(node_id, ips).in_flight.contains(other)
            == dialer.in_flight.contains(other) && dialer.ended(node_id, ips).in_flight.contains(
            other,
        ) == dialer.in_flight.contains(other),
        dialer.started(node_id, ips).in_flight_by_ip == reserved(dialer.in_flight_by_ip, ips),
        dialer.ended(node_id, ips).in_flight_by_ip == released(dialer.in_flight_by_ip, ips),
{
}

} // verus!
