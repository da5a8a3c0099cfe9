//! What header sync keeps about each peer.

use crate::header_sync::config::{
    self, clamp_advertised_range, clamp_inflight, ZakuraHeaderSyncConfig,
    EFFECTIVE_HS_OUTBOUND_INFLIGHT_PER_PEER,
};
use crate::header_sync::events::HeaderSyncStatus;
use crate::header_sync::meters::{self, HeaderSyncPeerMeters};
use crate::header_sync::ranges::RangeRequest;
use crate::time::{Duration, Timestamp};
use crate::types::{BlockHash, Height, ZakuraPeerId};
use crate::vec_map::VecMap;
use vstd::prelude::*;

verus! {

/// Failures to confirm an advisory summary before a peer is backed off.
pub const HEADER_SYNC_ADVISORY_BACKOFF_FAILURES: u32 = 2;

/// How long a peer with unconfirmed summaries is backed off, in seconds.
pub const HEADER_SYNC_ADVISORY_BACKOFF_SECS: u64 = 60;

/// Stale-link failures before the best header is rebased.
pub const HEADER_SYNC_STALE_LINK_FAILURES: u32 = 3;

/// Distinct peers among those failures before the best header is rebased.
pub const HEADER_SYNC_STALE_LINK_DISTINCT_PEERS: usize = 2;

/// Ranges whose first header did not link to the best header.
#[derive(Debug)]
pub struct StaleLinkFailures {
    /// Number of failures.
    pub count: u32,
    /// Peers that caused them.
    pub peers: VecMap<ZakuraPeerId, ()>,
}

impl StaleLinkFailures {
    /// The peers that caused failures.
    pub open spec fn blamed(&self) -> Set<Seq<u8>> {
        self.peers@.dom()
    }

    /// Each peer is recorded once.
    pub open spec fn wf(&self) -> bool {
        self.peers.wf()
    }

    /// No failures.
    pub fn new() -> (failures: Self)
        ensures
            failures.wf(),
            failures.count == 0,
            failures.blamed() == Set::<Seq<u8>>::empty(),
    {
        let failures = StaleLinkFailures { count: 0, peers: VecMap::new() };
        assert(failures.blamed() =~= Set::empty());
        failures
    }

    /// Records one failure caused by `peer`.
    pub fn record(&mut self, peer: ZakuraPeerId)
        requires
            old(self).wf(),
        ensures
            final(self).wf(),
            final(self).count == (if old(self).count < u32::MAX {
                old(self).count + 1
            } else {
                u32::MAX as int
            }),
            final(self).blamed() == old(self).blamed().insert(peer@),
    {
        self.count = self.count.saturating_add(1);
        let ghost before = self.peers@;
        self.peers.insert(peer, ());
        assert(self.peers@.dom() =~= before.dom().insert(peer@));
    }

    /// Whether enough failures by enough peers are recorded to rebase.
    pub fn should_rebase(&self) -> (rebase: bool)
        requires
            self.wf(),
        ensures
            rebase == (self.count >= HEADER_SYNC_STALE_LINK_FAILURES && self.blamed().len()
                >= HEADER_SYNC_STALE_LINK_DISTINCT_PEERS),
    {
        self.count >= HEADER_SYNC_STALE_LINK_FAILURES && self.peers.len()
            >= HEADER_SYNC_STALE_LINK_DISTINCT_PEERS
    }

    /// Forgets every failure.
    pub fn reset(&mut self)
        ensures
            final(self).wf(),
            final(self).count == 0,
            final(self).blamed() == Set::<Seq<u8>>::empty(),
    {
        self.count = 0;
        self.peers = VecMap::new();
        assert(self.blamed() =~= Set::empty());
    }
}

/// One peer alone never causes a rebase, however often its ranges fail.
pub proof fn law_one_peer_never_rebases(failures: StaleLinkFailures, peer: Seq<u8>)
    requires
        failures.wf(),
        failures.blamed().subset_of(set![peer]),
    ensures
        failures.blamed().len() < HEADER_SYNC_STALE_LINK_DISTINCT_PEERS,
{
    vstd::set_lib::lemma_len_subset(failures.blamed(), set![peer]);
}

/// A peer's advisory summary and how it held up. `S` is the summary.
#[derive(Copy, Clone, Debug)]
pub struct HeaderSyncAdvisoryPeerState<S> {
    /// The summary.
    pub summary: S,
    /// When the summary was observed.
    pub observed_at: Timestamp,
    /// Unconfirmed observations in a row.
    pub failure_count: u32,
    /// End of the current back-off.
    pub backoff_until: Option<Timestamp>,
}

impl<S> HeaderSyncAdvisoryPeerState<S> {
    /// A fresh observation.
    pub fn new(summary: S, observed_at: Timestamp) -> (state: Self)
        ensures
            state == (HeaderSyncAdvisoryPeerState {
                summary,
                observed_at,
                failure_count: 0,
                backoff_until: None,
            }),
    {
        HeaderSyncAdvisoryPeerState { summary, observed_at, failure_count: 0, backoff_until: None }
    }

    /// Replaces the summary, and keeps the peer's record.
    pub fn refresh_summary(&mut self, summary: S, observed_at: Timestamp)
        ensures
            *final(self) == (HeaderSyncAdvisoryPeerState {
                summary,
                observed_at,
                failure_count: old(self).failure_count,
                backoff_until: old(self).backoff_until,
            }),
    {
        self.summary = summary;
        self.observed_at = observed_at;
    }

    /// Whether the summary is `ttl` old or older.
    pub fn is_expired(&self, now: Timestamp, ttl: Duration) -> (expired: bool)
        ensures
            expired == (now.spec_since(self.observed_at) >= ttl.nanos),
    {
        now.saturating_duration_since(self.observed_at).nanos >= ttl.nanos
    }

    /// Whether the peer is backed off at `now`.
    pub fn is_backed_off(&self, now: Timestamp) -> (backed_off: bool)
        ensures
            backed_off == (self.backoff_until matches Some(until) && until.nanos > now.nanos),
    {
        match self.backoff_until {
            Some(until) => until.nanos > now.nanos,
            None => false,
        }
    }

    /// The peer confirmed its summary.
    pub fn record_confirmed(&mut self)
        ensures
            final(self).failure_count == 0,
            final(self).backoff_until is None,
            final(self).summary == old(self).summary,
            final(self).observed_at == old(self).observed_at,
    {
        self.failure_count = 0;
        self.backoff_until = None;
    }

    /// The peer failed to confirm its summary. From the second failure in a row on it
    /// is backed off.
    pub fn record_unconfirmed(&mut self, now: Timestamp)
        requires
            now.nanos + HEADER_SYNC_ADVISORY_BACKOFF_SECS * crate::time::NANOS_PER_SEC
                <= u128::MAX,
        ensures
            final(self).summary == old(self).summary,
            final(self).observed_at == old(self).observed_at,
            final(self).failure_count == (if old(self).failure_count < u32::MAX {
                old(self).failure_count + 1
            } else {
                u32::MAX as int
            }),
            final(self).failure_count < HEADER_SYNC_ADVISORY_BACKOFF_FAILURES ==> final(self).backoff_until == old(self).backoff_until,
            final(self).failure_count >= HEADER_SYNC_ADVISORY_BACKOFF_FAILURES ==> (final(self).backoff_until matches Some(until) && until.nanos == now.nanos
                + HEADER_SYNC_ADVISORY_BACKOFF_SECS * crate::time::NANOS_PER_SEC),
    {
        self.failure_count = self.failure_count.saturating_add(1);
        if self.failure_count >= HEADER_SYNC_ADVISORY_BACKOFF_FAILURES {
            let backoff = Duration::from_secs(HEADER_SYNC_ADVISORY_BACKOFF_SECS);
            self.backoff_until = Some(now.plus(backoff));
        }
    }
}

/// A range that was requested from a peer and not answered yet.
#[derive(Copy, Clone, Debug)]
pub struct OutstandingRange {
    /// The requested range.
    pub range: RangeRequest,
    /// When the request times out.
    pub deadline: Timestamp,
    /// Most headers that the response may hold.
    pub expected_max_count: u32,
    /// Whether a timeout also releases the peer's assignment.
    pub clear_assignment_on_timeout: bool,
}

/// Which side opened a peer's service session.
#[derive(Copy, Clone, Debug, PartialEq, Eq, Structural)]
pub enum ServicePeerDirection {
    /// The peer opened it.
    Inbound,
    /// This node opened it.
    Outbound,
}

/// A connected peer.
#[derive(Debug)]
pub struct PeerHeaderState {
    /// Which side opened the session.
    pub direction: ServicePeerDirection,
    /// Highest height the peer advertised.
    pub advertised_tip: Height,
    /// Hash at that height.
    pub advertised_hash: BlockHash,
    /// Lowest height the peer serves from.
    pub sync_start_height: Height,
    /// Clamped per-response cap of the peer.
    pub max_headers_per_response: u32,
    /// Clamped number of requests the peer serves at a time.
    pub max_inflight_requests: u16,
    /// Whether a valid status arrived.
    pub received_status: bool,
    /// The most recent status sent to this peer over its current session.
    pub last_sent_status: Option<HeaderSyncStatus>,
    /// Unanswered requests, oldest first.
    pub outstanding: Vec<OutstandingRange>,
    /// Responses that may still arrive for ranges that were covered meanwhile.
    pub late_covered_responses: usize,
    /// The peer's meters.
    pub meters: HeaderSyncPeerMeters,
    /// Requests of the peer that are being served.
    pub served_headers_inflight: u16,
}

impl PeerHeaderState {
    /// Whether the peer can learn something from `status`.
    pub open spec fn needs_status(self, status: HeaderSyncStatus) -> bool {
        self.last_sent_status != Some(status)
    }

    /// The peer after `status` was sent to it.
    pub open spec fn with_sent_status(self, status: Option<HeaderSyncStatus>) -> PeerHeaderState {
        PeerHeaderState { last_sent_status: status, ..self }
    }

    /// Whether another request of the peer may be served while `cap` are served at most.
    pub open spec fn may_serve(self, cap: u16) -> bool {
        self.served_headers_inflight < cap
    }

    /// The peer with one more request being served, if that is allowed.
    pub open spec fn serving_one_more(self, cap: u16) -> PeerHeaderState {
        PeerHeaderState {
            served_headers_inflight: (self.served_headers_inflight + (if self.may_serve(cap) {
                1int
            } else {
                0
            })) as u16,
            ..self
        }
    }

    /// The peer with one request less being served.
    pub open spec fn serving_one_less(self) -> PeerHeaderState {
        PeerHeaderState {
            served_headers_inflight: (if self.served_headers_inflight > 0 {
                self.served_headers_inflight - 1
            } else {
                0
            }) as u16,
            ..self
        }
    }

    /// A peer that has advertised nothing yet.
    pub fn new(
        direction: ServicePeerDirection,
        trusted_sync_start: (Height, BlockHash),
        local_range: u32,
        local_inflight: u16,
        config: &ZakuraHeaderSyncConfig,
        inbound_status_min_interval: Duration,
        inbound_new_block_min_interval: Duration,
        now: Timestamp,
    ) -> (peer: Self)
        requires
            config.wf(),
            inbound_status_min_interval.wf(),
            now.nanos + meters::keepalive_nanos(
                config.status_refresh_interval,
                inbound_status_min_interval,
            ) <= u128::MAX,
        ensures
            peer.direction == direction,
            peer.advertised_tip == trusted_sync_start.0,
            peer.advertised_hash == trusted_sync_start.1,
            peer.sync_start_height == trusted_sync_start.0,
            peer.max_headers_per_response == config::clamp_from_one(
                local_range as int,
                config.max_advertised_range as int,
            ),
            peer.max_inflight_requests == config::clamp_from_one(
                local_inflight as int,
                config.max_inflight_per_peer as int,
            ),
            !peer.received_status,
            peer.last_sent_status is None,
            peer.outstanding@.len() == 0,
            peer.late_covered_responses == 0,
            peer.served_headers_inflight == 0,
            peer.meters.unsolicited.interval == config.status_refresh_interval,
            peer.meters.inbound_status.interval == inbound_status_min_interval,
            peer.meters.inbound_new_block.interval == inbound_new_block_min_interval,
            peer.meters.keepalive.interval.nanos == meters::keepalive_nanos(
                config.status_refresh_interval,
                inbound_status_min_interval,
            ),
            peer.meters.unsolicited.next_allowed == now,
            peer.meters.inbound_status.next_allowed == now,
            peer.meters.inbound_new_block.next_allowed == now,
            peer.meters.keepalive.next_allowed.nanos == now.nanos
                + peer.meters.keepalive.interval.nanos,
    {
        PeerHeaderState {
            direction,
            advertised_tip: trusted_sync_start.0,
            advertised_hash: trusted_sync_start.1,
            sync_start_height: trusted_sync_start.0,
            max_headers_per_response: clamp_advertised_range(
                local_range,
                config.max_advertised_range,
            ),
            max_inflight_requests: clamp_inflight(local_inflight, config.max_inflight_per_peer),
            received_status: false,
            last_sent_status: None,
            outstanding: Vec::new(),
            late_covered_responses: 0,
            meters: HeaderSyncPeerMeters::new(
                config.status_refresh_interval,
                inbound_status_min_interval,
                inbound_new_block_min_interval,
                now,
            ),
            served_headers_inflight: 0,
        }
    }

    /// How many more requests may be sent to the peer now.
    pub fn available_slots(&self) -> (slots: usize)
        ensures
            slots == ({
                let cap = if self.max_inflight_requests
                    < EFFECTIVE_HS_OUTBOUND_INFLIGHT_PER_PEER {
                    self.max_inflight_requests as int
                } else {
                    EFFECTIVE_HS_OUTBOUND_INFLIGHT_PER_PEER as int
                };
                if cap > self.outstanding@.len() {
                    cap - self.outstanding@.len()
                } else {
                    0
                }
            }),
    {
        let mut cap: usize = self.max_inflight_requests as usize;
        if cap > EFFECTIVE_HS_OUTBOUND_INFLIGHT_PER_PEER {
            cap = EFFECTIVE_HS_OUTBOUND_INFLIGHT_PER_PEER;
        }
        cap.saturating_sub(self.outstanding.len())
    }

    /// Takes the oldest unanswered request.
    pub fn pop_oldest_outstanding(&mut self) -> (oldest: Option<OutstandingRange>)
        ensures
            oldest == (if old(self).outstanding@.len() > 0 {
                Some(old(self).outstanding@[0])
            } else {
                None
            }),
            final(self).outstanding@ == (if old(self).outstanding@.len() > 0 {
                old(self).outstanding@.drop_first()
            } else {
                old(self).outstanding@
            }),
            *final(self) == (PeerHeaderState {
                outstanding: final(self).outstanding,
                ..*old(self)
            }),
    {
        if self.outstanding.len() == 0 {
            return None;
        }
        let oldest = self.outstanding.remove(0);
        assert(self.outstanding@ =~= old(self).outstanding@.drop_first());
        Some(oldest)
    }

    /// Puts a request back as the oldest unanswered one.
    pub fn restore_oldest_outstanding(&mut self, outstanding: OutstandingRange)
        ensures
            final(self).outstanding@ == seq![outstanding] + old(self).outstanding@,
            *final(self) == (PeerHeaderState {
                outstanding: final(self).outstanding,
                ..*old(self)
            }),
    {
        self.outstanding.insert(0, outstanding);
        assert(self.outstanding@ =~= seq![outstanding] + old(self).outstanding@);
    }

    /// Spends one allowance for a late response, if there is one.
    pub fn take_late_covered_response(&mut self) -> (taken: bool)
        ensures
            taken == (old(self).late_covered_responses > 0),
            *final(self) == (PeerHeaderState {
                late_covered_responses: final(self).late_covered_responses,
                ..*old(self)
            }),
            final(self).late_covered_responses == (if taken {
                old(self).late_covered_responses - 1
            } else {
                0
            }),
    {
        if self.late_covered_responses == 0 {
            return false;
        }
        self.late_covered_responses = self.late_covered_responses - 1;
        true
    }

    /// Whether `status` differs from the most recent status sent to this peer over its
    /// current session.
    pub fn status_differs_from_last_sent(&self, status: HeaderSyncStatus) -> (differs: bool)
        ensures
            differs == self.needs_status(status),
    {
        match &self.last_sent_status {
            Some(sent) => !sent.same_status(&status),
            None => true,
        }
    }

    /// Records `status` as the most recent status sent to this peer.
    pub fn record_sent_status(&mut self, status: HeaderSyncStatus)
        ensures
            *final(self) == old(self).with_sent_status(Some(status)),
    {
        self.last_sent_status = Some(status);
    }

    /// Forgets the last status sent to this peer, so that the next one is always sent.
    pub fn reset_sent_status(&mut self)
        ensures
            *final(self) == old(self).with_sent_status(None),
    {
        self.last_sent_status = None;
    }

    /// Takes one serving slot of the `local_inflight_cap` there are.
    pub fn try_start_serving_headers(&mut self, local_inflight_cap: u16) -> (started: bool)
        ensures
            started == old(self).may_serve(local_inflight_cap),
            *final(self) == old(self).serving_one_more(local_inflight_cap),
    {
        if self.served_headers_inflight >= local_inflight_cap {
            return false;
        }
        self.served_headers_inflight = self.served_headers_inflight.saturating_add(1);
        true
    }

    /// Gives one serving slot back.
    pub fn finish_serving_headers(&mut self)
        ensures
            *final(self) == old(self).serving_one_less(),
    {
        self.served_headers_inflight = self.served_headers_inflight.saturating_sub(1);
    }
}

/// A status is sent once per session: after it was sent it is not needed again until
/// another one was sent or the session was replaced, and a fresh session needs every one.
pub proof fn law_repeated_status_is_suppressed(
    peer: PeerHeaderState,
    status: HeaderSyncStatus,
    other: HeaderSyncStatus,
)
    ensures
        !peer.with_sent_status(Some(status)).needs_status(status),
        other != status ==> peer.with_sent_status(Some(status)).needs_status(other),
        peer.with_sent_status(None).needs_status(status),
{
}

/// No more requests of a peer are served at a time than the cap allows, and a request that
/// ends gives back the slot that it took.
pub proof fn law_serving_slots_are_bounded(peer: PeerHeaderState, cap: u16)
    requires
        peer.served_headers_inflight <= cap,
    ensures
        peer.serving_one_more(cap).served_headers_inflight <= cap,
        peer.serving_one_less().served_headers_inflight <= cap,
        peer.may_serve(cap) ==> peer.serving_one_more(cap).serving_one_less() == peer,
        !peer.may_serve(cap) ==> peer.serving_one_more(cap) == peer,
{
}

/// Restoring what was popped leaves the unanswered requests as they were.
pub proof fn law_restore_undoes_pop(outstanding: Seq<OutstandingRange>)
    requires
        outstanding.len() > 0,
    ensures
        seq![outstanding[0]] + outstanding.drop_first() == outstanding,
{
    assert(seq![outstanding[0]] + outstanding.drop_first() =~= outstanding);
}

} // verus!
