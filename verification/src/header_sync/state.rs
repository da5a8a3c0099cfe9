//! The header-sync state of a node, and the ranges it wants next.

use crate::header_sync::config;
use crate::header_sync::dedup::HeaderHashDedup;
use crate::header_sync::events::HeaderSyncStartup;
use crate::header_sync::peer_state::{
    HeaderSyncAdvisoryPeerState, PeerHeaderState, StaleLinkFailures,
};
use crate::header_sync::ranges::{self, count_between, next_height, RangePriority, RangeRequest};
use crate::header_sync::scheduler::{RangeScheduler, SchedulerView};
use crate::types::{max_height, min_height, BlockHash, Height, ZakuraPeerId};
use crate::vec_map::{MapKey, VecMap};
use vstd::prelude::*;

verus! {

/// Why header sync refuses to start.
#[derive(Copy, Clone, Debug, PartialEq, Eq, Structural)]
pub enum HeaderSyncStartError {
    /// The trusted sync start is not a block of the active network.
    UntrustedSyncStart,
}

/// Identifies a range that is being committed.
#[derive(Debug)]
pub struct PendingCommitKey {
    /// Peer that supplied the range.
    pub peer: ZakuraPeerId,
    /// First height of the range.
    pub start_height: Height,
    /// Number of headers in the range.
    pub count: u32,
}

impl View for PendingCommitKey {
    type V = (Seq<u8>, Height, u32);

    open spec fn view(&self) -> (Seq<u8>, Height, u32) {
        (self.peer@, self.start_height, self.count)
    }
}

impl MapKey for PendingCommitKey {
    fn same_key(&self, other: &Self) -> (same: bool) {
        self.peer.same_key(&other.peer) && self.start_height == other.start_height && self.count
            == other.count
    }

    fn duplicate(&self) -> (copy: Self) {
        PendingCommitKey {
            peer: self.peer.duplicate(),
            start_height: self.start_height,
            count: self.count,
        }
    }
}

/// A range that was handed to the commit path. `R` is the verified commitment roots.
#[derive(Debug)]
pub struct PendingHeaderCommit<R> {
    /// The full range requested from the peer.
    pub requested_range: RangeRequest,
    /// The range actually delivered by the peer, which may be a prefix of the request.
    pub delivered_range: RangeRequest,
    /// The verified roots of a root-carrying range.
    pub verified_roots: Option<R>,
}

/// The header-sync state of a node. `T` is a history tree, `R` verified commitment
/// roots and `S` an advisory summary; header sync carries all three without looking
/// inside.
#[derive(Debug)]
pub struct HeaderSyncCore<T, R, S> {
    /// Trusted height and hash that forward sync starts from.
    pub trusted_sync_start: (Height, BlockHash),
    /// Finalized height.
    pub finalized_height: Height,
    /// Highest verified block body.
    pub verified_block_tip: Height,
    /// Hash of the highest verified block body.
    pub verified_block_hash: BlockHash,
    /// Best header.
    pub best_header_tip: Height,
    /// Hash of the best header.
    pub best_header_hash: BlockHash,
    /// Hash of the parent of the best header, where it is known.
    pub best_header_parent_hash: Option<BlockHash>,
    /// History tree at the parent of the next forward range.
    pub best_header_history_tree: T,
    /// Highest backfilled header below the sync start.
    pub backfill_tip: Height,
    /// Hash of that header.
    pub backfill_hash: BlockHash,
    /// Hash of the parent of that header, where it is known.
    pub backfill_parent_hash: Option<BlockHash>,
    /// History tree at the parent of the next backfill range.
    pub backfill_history_tree: T,
    /// Whether the root of the sync start itself has been confirmed.
    pub backfill_sync_start_root_confirmed: bool,
    /// Connected peers.
    pub peers: VecMap<ZakuraPeerId, PeerHeaderState>,
    /// Connected peers that are not used.
    pub parked_peers: VecMap<ZakuraPeerId, ()>,
    /// Recently seen block hashes.
    pub seen: HeaderHashDedup,
    /// New blocks that await acceptance.
    pub pending_new_blocks: VecMap<BlockHash, ()>,
    /// Work.
    pub schedule: RangeScheduler,
    /// Ranges that are being committed.
    pub pending_commits: VecMap<PendingCommitKey, PendingHeaderCommit<R>>,
    /// Advisory summaries.
    pub advisory: VecMap<ZakuraPeerId, HeaderSyncAdvisoryPeerState<S>>,
    /// Ranges that did not link.
    pub stale_link: StaleLinkFailures,
    /// Whether a rebuild of the history tree is outstanding.
    pub rebuild_in_flight: bool,
}

/// Whether some peer with a valid status advertises `tip`.
pub open spec fn is_advertised(peers: Map<Seq<u8>, PeerHeaderState>, tip: Height) -> bool {
    exists|peer: Seq<u8>| #[trigger]
        peers.contains_key(peer) && peers[peer].received_status && peers[peer].advertised_tip == tip
}

/// Whether `tip` is the highest tip that a peer with a valid status advertises.
pub open spec fn is_best_tip(peers: Map<Seq<u8>, PeerHeaderState>, tip: Height) -> bool {
    &&& is_advertised(peers, tip)
    &&& forall|peer: Seq<u8>| #[trigger]
        peers.contains_key(peer) && peers[peer].received_status ==> peers[peer].advertised_tip.0
            <= tip.0
}

/// The highest tip that a peer with a valid status advertises, `fallback` when there
/// is no such peer.
pub open spec fn best_peer_tip(peers: Map<Seq<u8>, PeerHeaderState>, fallback: Height) -> Height {
    if exists|tip: Height| is_best_tip(peers, tip) {
        choose|tip: Height| is_best_tip(peers, tip)
    } else {
        fallback
    }
}

/// The height after `height`, or `height` where there is none.
pub open spec fn next_or_same(height: Height) -> Height {
    if height.0 < u32::MAX {
        Height((height.0 + 1) as u32)
    } else {
        height
    }
}

/// The larger height.
pub open spec fn spec_max(a: Height, b: Height) -> Height {
    if a.0 >= b.0 {
        a
    } else {
        b
    }
}

/// The smaller height.
pub open spec fn spec_min(a: Height, b: Height) -> Height {
    if a.0 <= b.0 {
        a
    } else {
        b
    }
}

impl<T, R, S> HeaderSyncCore<T, R, S> {
    /// Every table holds each key once, and the schedule is well formed.
    pub open spec fn wf(&self) -> bool {
        &&& self.peers.wf()
        &&& self.parked_peers.wf()
        &&& self.seen.wf()
        &&& self.pending_new_blocks.wf()
        &&& self.schedule.wf()
        &&& self.pending_commits.wf()
        &&& self.advisory.wf()
        &&& self.stale_link.wf()
    }

    /// Whether commitment roots are still collected at the best header.
    pub open spec fn collects_roots(&self, last_checkpoint: Height) -> bool {
        spec_max(self.trusted_sync_start.0, self.finalized_height).0 < last_checkpoint.0
            && self.best_header_tip.0 < next_or_same(last_checkpoint).0
    }

    /// Whether the next forward range redelivers the best header, so that its root can
    /// be confirmed.
    pub open spec fn overlaps_best_header(&self, last_checkpoint: Height) -> bool {
        self.collects_roots(last_checkpoint) && self.best_header_parent_hash is Some
            && self.best_header_tip.0 > 0
    }

    /// The end of the next forward range toward `peer_tip` and whether the range is
    /// finalized; none while the first checkpoint is out of reach.
    pub open spec fn forward_end(
        &self,
        peer_tip: Height,
        checkpoints: Seq<Height>,
        last_checkpoint: Height,
    ) -> Option<(Height, bool)> {
        let capped = |end: Height|
            if self.collects_roots(last_checkpoint) {
                spec_min(end, next_or_same(last_checkpoint))
            } else {
                end
            };
        match config::lowest_from(checkpoints, Height(1)) {
            Some(first) => if self.best_header_tip.0 < first.0 {
                if peer_tip.0 < first.0 {
                    None
                } else {
                    Some((capped(first), true))
                }
            } else {
                Some((capped(peer_tip), false))
            },
            None => Some((capped(peer_tip), false)),
        }
    }

    /// The forward range that is wanted next, given the best advertised tip.
    pub open spec fn next_forward_range(
        &self,
        peer_tip: Height,
        checkpoints: Seq<Height>,
        last_checkpoint: Height,
    ) -> Option<RangeRequest> {
        let overlap = self.overlaps_best_header(last_checkpoint);
        let start = if overlap {
            self.best_header_tip
        } else {
            next_or_same(self.best_header_tip)
        };
        match self.forward_end(peer_tip, checkpoints, last_checkpoint) {
            None => None,
            Some((end, finalized)) => if peer_tip.0 <= self.best_header_tip.0
                || ranges::spec_count_between(start, end) == 0 {
                None
            } else {
                Some(
                    RangeRequest {
                        start_height: start,
                        count: ranges::spec_count_between(start, end) as u32,
                        link_hash: if overlap {
                            self.best_header_parent_hash->0
                        } else {
                            self.best_header_hash
                        },
                        finalized,
                        want_tree_aux_roots: self.collects_roots(last_checkpoint),
                        priority: RangePriority::Forward,
                    },
                )
            },
        }
    }

    /// The range below the sync start that is wanted next.
    pub open spec fn next_backfill_range(
        &self,
        enabled: bool,
        checkpoints: Seq<Height>,
    ) -> Option<RangeRequest> {
        let sync_start = self.trusted_sync_start.0;
        if !enabled || sync_start.0 == 0 {
            None
        } else if self.backfill_tip.0 < sync_start.0 {
            let overlap = self.backfill_parent_hash is Some && self.backfill_tip.0 > 0;
            let next = next_or_same(self.backfill_tip);
            let start = if overlap {
                self.backfill_tip
            } else {
                next
            };
            let end = match config::lowest_from(checkpoints, next) {
                Some(checkpoint) => spec_min(checkpoint, sync_start),
                None => sync_start,
            };
            if ranges::spec_count_between(start, end) == 0 {
                None
            } else {
                Some(
                    RangeRequest {
                        start_height: start,
                        count: ranges::spec_count_between(start, end) as u32,
                        link_hash: if overlap {
                            self.backfill_parent_hash->0
                        } else {
                            self.backfill_hash
                        },
                        finalized: true,
                        want_tree_aux_roots: true,
                        priority: RangePriority::Backfill,
                    },
                )
            }
        } else if self.backfill_tip == sync_start && !self.backfill_sync_start_root_confirmed
            && self.backfill_parent_hash is Some && sync_start.0 < u32::MAX {
            Some(
                RangeRequest {
                    start_height: sync_start,
                    count: 2,
                    link_hash: self.backfill_parent_hash->0,
                    finalized: false,
                    want_tree_aux_roots: true,
                    priority: RangePriority::Backfill,
                },
            )
        } else {
            None
        }
    }

    /// The state at startup. `sync_start_check` is the verdict on the trusted sync start,
    /// `best_tree` the durable history tree and `empty_tree` the empty one.
    pub fn new(
        startup: &HeaderSyncStartup,
        sync_start_check: Result<(), HeaderSyncStartError>,
        best_tree: T,
        empty_tree: T,
    ) -> (sync: Result<Self, HeaderSyncStartError>)
        ensures
            match sync_start_check {
                Err(error) => sync == Err::<Self, HeaderSyncStartError>(error),
                Ok(()) => sync is Ok && {
                    let sync = sync->Ok_0;
                    let best = match startup.best_header_tip {
                        Some(best) => best,
                        None => startup.anchor,
                    };
                    &&& sync.wf()
                    &&& sync.trusted_sync_start == startup.anchor
                    &&& sync.finalized_height == startup.frontiers.finalized_height
                    &&& sync.verified_block_tip == startup.frontiers.verified_block_tip
                    &&& sync.verified_block_hash == startup.frontiers.verified_block_hash
                    &&& sync.best_header_tip == best.0
                    &&& sync.best_header_hash == best.1
                    &&& sync.best_header_parent_hash == startup.best_header_parent_hash
                    &&& sync.best_header_history_tree == best_tree
                    &&& sync.backfill_tip == Height(0)
                    &&& sync.backfill_hash == startup.network.genesis_hash
                    &&& sync.backfill_parent_hash is None
                    &&& sync.backfill_history_tree == empty_tree
                    &&& !sync.backfill_sync_start_root_confirmed
                    &&& sync.peers@ == Map::<Seq<u8>, PeerHeaderState>::empty()
                    &&& sync.parked_peers@ == Map::<Seq<u8>, ()>::empty()
                    &&& sync.seen@ == Seq::<BlockHash>::empty()
                    &&& sync.seen.limit() == startup.config.seen_hash_capacity
                    &&& sync.pending_new_blocks@ == Map::<BlockHash, ()>::empty()
                    &&& sync.schedule@ == SchedulerView::empty()
                    &&& sync.pending_commits@ == Map::<
                        (Seq<u8>, Height, u32),
                        PendingHeaderCommit<R>,
                    >::empty()
                    &&& sync.advisory@ == Map::<Seq<u8>, HeaderSyncAdvisoryPeerState<S>>::empty()
                    &&& sync.stale_link.count == 0
                    &&& sync.stale_link.blamed() == Set::<Seq<u8>>::empty()
                    &&& !sync.rebuild_in_flight
                },
            },
    {
        match sync_start_check {
            Ok(()) => {},
            Err(error) => {
                return Err(error);
            },
        }
        let (best_header_tip, best_header_hash) = match startup.best_header_tip {
            Some(best) => best,
            None => startup.anchor,
        };
        Ok(
            HeaderSyncCore {
                trusted_sync_start: startup.anchor,
                finalized_height: startup.frontiers.finalized_height,
                verified_block_tip: startup.frontiers.verified_block_tip,
                verified_block_hash: startup.frontiers.verified_block_hash,
                best_header_tip,
                best_header_hash,
                best_header_parent_hash: startup.best_header_parent_hash,
                best_header_history_tree: best_tree,
                backfill_tip: Height(0),
                backfill_hash: startup.network.genesis_hash,
                backfill_parent_hash: None,
                backfill_history_tree: empty_tree,
                backfill_sync_start_root_confirmed: false,
                peers: VecMap::new(),
                parked_peers: VecMap::new(),
                seen: HeaderHashDedup::new(startup.config.seen_hash_capacity),
                pending_new_blocks: VecMap::new(),
                schedule: RangeScheduler::new(),
                pending_commits: VecMap::new(),
                advisory: VecMap::new(),
                stale_link: StaleLinkFailures::new(),
                rebuild_in_flight: false,
            },
        )
    }

    /// The highest tip that a peer with a valid status advertises, the best header when
    /// there is no such peer.
    pub fn highest_advertised_tip(&self) -> (tip: Height)
        requires
            self.peers.wf(),
        ensures
            tip == best_peer_tip(self.peers@, self.best_header_tip),
    {
        let ghost peers = self.peers@;
        let ghost order = self.peers.order();
        let mut best: Option<Height> = None;
        let len = self.peers.len();
        let mut i: usize = 0;
        proof {
            self.peers.lemma_view();
        }
        while i < len
            invariant
                i <= len,
                len == order.len(),
                self.peers.wf(),
                order == self.peers.order(),
                peers == self.peers@,
                best matches Some(tip) ==> is_advertised(peers, tip) && forall|j: int|
                    0 <= j < i && (#[trigger] order[j]).1.received_status
                        ==> order[j].1.advertised_tip.0 <= tip.0,
                best is None ==> forall|j: int|
                    0 <= j < i ==> !(#[trigger] order[j]).1.received_status,
            decreases len - i,
        {
            let peer = self.peers.value_at(i);
            proof {
                self.peers.lemma_view();
                assert(peers.contains_key(order[i as int].0));
                assert(peers[order[i as int].0] == order[i as int].1);
            }
            if peer.received_status {
                match best {
                    Some(tip) => {
                        if peer.advertised_tip.0 > tip.0 {
                            best = Some(peer.advertised_tip);
                        }
                    },
                    None => {
                        best = Some(peer.advertised_tip);
                    },
                }
            }
            i = i + 1;
        }
        proof {
            self.peers.lemma_view();
            match best {
                Some(tip) => {
                    assert forall|peer: Seq<u8>| #[trigger]
                        peers.contains_key(peer)
                            && peers[peer].received_status implies peers[peer].advertised_tip.0
                        <= tip.0 by {
                        let j = choose|j: int|
                            0 <= j < order.len() && (#[trigger] order[j]).0 == peer;
                        assert(peers[order[j].0] == order[j].1);
                    }
                    assert(is_best_tip(peers, tip));
                    let other = choose|t: Height| is_best_tip(peers, t);
                    assert(is_best_tip(peers, other));
                    assert(other.0 == tip.0);
                },
                None => {
                    if exists|t: Height| is_best_tip(peers, t) {
                        let t = choose|t: Height| is_best_tip(peers, t);
                        let peer = choose|peer: Seq<u8>| #[trigger]
                            peers.contains_key(peer) && peers[peer].received_status
                                && peers[peer].advertised_tip == t;
                        let j = choose|j: int|
                            0 <= j < order.len() && (#[trigger] order[j]).0 == peer;
                        assert(peers[order[j].0] == order[j].1);
                    }
                },
            }
        }
        match best {
            Some(tip) => tip,
            None => self.best_header_tip,
        }
    }

    /// Offers the next forward range as work.
    ///
    /// The range leads from the best header toward the best advertised tip. Below the
    /// first checkpoint it ends there and is finalized. While commitment roots are
    /// collected it asks for them, redelivers the best header when its parent is known,
    /// and stops at the header that confirms the last checkpoint. A range that would end
    /// at the last representable height cannot be offered.
    pub fn refresh_forward_range(&mut self, startup: &HeaderSyncStartup)
        requires
            old(self).wf(),
            old(self).next_forward_range(
                best_peer_tip(old(self).peers@, old(self).best_header_tip),
                startup.network.checkpoints@,
                startup.last_checkpoint_height,
            ) matches Some(range) ==> range.wf(),
        ensures
            final(self).wf(),
            *final(self) == (HeaderSyncCore { schedule: final(self).schedule, ..*old(self) }),
            final(self).schedule@ == (match old(self).next_forward_range(
                best_peer_tip(old(self).peers@, old(self).best_header_tip),
                startup.network.checkpoints@,
                startup.last_checkpoint_height,
            ) {
                Some(range) => old(self).schedule@.ensured(range, RangePriority::Forward),
                None => old(self).schedule@,
            }),
    {
        let best_peer_tip = self.highest_advertised_tip();
        if best_peer_tip.0 <= self.best_header_tip.0 {
            return ;
        }
        let last_checkpoint = startup.last_checkpoint_height;
        let root_regime_end = match next_height(last_checkpoint) {
            Some(next) => next,
            None => last_checkpoint,
        };
        let root_region_floor = max_height(self.trusted_sync_start.0, self.finalized_height);
        let below_root_boundary = root_region_floor.0 < last_checkpoint.0
            && self.best_header_tip.0 < root_regime_end.0;
        let overlap = below_root_boundary && self.best_header_parent_hash.is_some()
            && self.best_header_tip.0 > 0;
        let start = if overlap {
            self.best_header_tip
        } else {
            match next_height(self.best_header_tip) {
                Some(next) => next,
                None => {
                    return ;
                },
            }
        };
        let mut end = best_peer_tip;
        let mut finalized = false;
        match startup.network.min_checkpoint_from(Height(1)) {
            Some(first_checkpoint) => {
                if self.best_header_tip.0 < first_checkpoint.0 {
                    if best_peer_tip.0 < first_checkpoint.0 {
                        return ;
                    }
                    end = first_checkpoint;
                    finalized = true;
                }
            },
            None => {},
        }
        if below_root_boundary {
            end = min_height(end, root_regime_end);
        }
        let count = count_between(start, end);
        if count == 0 {
            return ;
        }
        let link_hash = if overlap {
            match self.best_header_parent_hash {
                Some(parent) => parent,
                None => self.best_header_hash,
            }
        } else {
            self.best_header_hash
        };
        let range = RangeRequest {
            start_height: start,
            count,
            link_hash,
            finalized,
            want_tree_aux_roots: below_root_boundary,
            priority: RangePriority::Forward,
        };
        self.schedule.ensure_forward(range);
    }

    /// Offers the next range below the sync start as work.
    ///
    /// A second cursor sweeps from genesis to the sync start, one checkpoint at a time,
    /// with roots and the same overlap as forward sync. Once it is there, a final range
    /// of two headers confirms the root of the sync start itself. A range that would end at
    /// the last representable height cannot be offered.
    pub fn refresh_backfill_range(&mut self, startup: &HeaderSyncStartup)
        requires
            old(self).wf(),
            old(self).next_backfill_range(
                startup.backfill_enabled,
                startup.network.checkpoints@,
            ) matches Some(range) ==> range.wf(),
        ensures
            final(self).wf(),
            *final(self) == (HeaderSyncCore { schedule: final(self).schedule, ..*old(self) }),
            final(self).schedule@ == (match old(self).next_backfill_range(
                startup.backfill_enabled,
                startup.network.checkpoints@,
            ) {
                Some(range) => old(self).schedule@.ensured(range, RangePriority::Backfill),
                None => old(self).schedule@,
            }),
    {
        if !startup.backfill_enabled {
            return ;
        }
        let sync_start = self.trusted_sync_start.0;
        if sync_start.0 == 0 {
            return ;
        }
        if self.backfill_tip.0 < sync_start.0 {
            let next = match next_height(self.backfill_tip) {
                Some(next) => next,
                None => {
                    return ;
                },
            };
            let mut start = next;
            let mut link_hash = self.backfill_hash;
            match self.backfill_parent_hash {
                Some(parent) => {
                    if self.backfill_tip.0 > 0 {
                        start = self.backfill_tip;
                        link_hash = parent;
                    }
                },
                None => {},
            }
            let end = match startup.network.min_checkpoint_from(next) {
                Some(checkpoint) => min_height(checkpoint, sync_start),
                None => sync_start,
            };
            let count = count_between(start, end);
            if count == 0 {
                return ;
            }
            let range = RangeRequest {
                start_height: start,
                count,
                link_hash,
                finalized: true,
                want_tree_aux_roots: true,
                priority: RangePriority::Backfill,
            };
            self.schedule.ensure_backfill(range);
        } else if self.backfill_tip == sync_start && !self.backfill_sync_start_root_confirmed {
            let parent = match self.backfill_parent_hash {
                Some(parent) => parent,
                None => {
                    return ;
                },
            };
            if next_height(sync_start).is_none() {
                return ;
            }
            let range = RangeRequest {
                start_height: sync_start,
                count: 2,
                link_hash: parent,
                finalized: false,
                want_tree_aux_roots: true,
                priority: RangePriority::Backfill,
            };
            self.schedule.ensure_backfill(range);
        }
    }
}

/// The lowest checkpoint that is reported is one.
proof fn lemma_lowest_from(checkpoints: Seq<Height>, from: Height)
    ensures
        config::lowest_from(checkpoints, from) matches Some(checkpoint) ==> config::is_lowest_from(
            checkpoints,
            from,
            checkpoint,
        ),
{
}

/// A forward range always makes progress: it picks up at the best header or right
/// after it, ends above the best header and at or below the best advertised tip, and
/// asks for roots only up to the header that confirms the last checkpoint.
pub proof fn law_forward_range_extends_best_header<T, R, S>(
    sync: HeaderSyncCore<T, R, S>,
    peer_tip: Height,
    checkpoints: Seq<Height>,
    last_checkpoint: Height,
)
    ensures
        sync.next_forward_range(peer_tip, checkpoints, last_checkpoint) matches Some(range) ==> {
            &&& range.start_height.0 == sync.best_header_tip.0 || range.start_height.0
                == sync.best_header_tip.0 + 1
            &&& range.end() > sync.best_header_tip.0
            &&& range.end() <= peer_tip.0
            &&& range.want_tree_aux_roots ==> range.end() <= last_checkpoint.0 + 1
            &&& range.link_hash == sync.best_header_hash || Some(range.link_hash)
                == sync.best_header_parent_hash
        },
{
    lemma_lowest_from(checkpoints, Height(1));
}

/// A forward range is finalized exactly when it starts below the first checkpoint, and
/// then it never reaches past that checkpoint.
pub proof fn law_finalized_range_stops_at_first_checkpoint<T, R, S>(
    sync: HeaderSyncCore<T, R, S>,
    peer_tip: Height,
    checkpoints: Seq<Height>,
    last_checkpoint: Height,
)
    ensures
        sync.next_forward_range(peer_tip, checkpoints, last_checkpoint) matches Some(range) ==> {
            &&& range.finalized <==> (config::lowest_from(checkpoints, Height(1)) matches Some(first)
                && sync.best_header_tip.0 < first.0)
            &&& config::lowest_from(checkpoints, Height(1)) matches Some(first)
                ==> range.finalized ==> range.end() <= first.0
        },
{
    lemma_lowest_from(checkpoints, Height(1));
}

/// A backfill range never reaches past the sync start, but for the final pair of
/// headers that confirms it; a finalized one ends at a checkpoint or at the sync
/// start, and moves the cursor on.
pub proof fn law_backfill_stays_below_sync_start<T, R, S>(
    sync: HeaderSyncCore<T, R, S>,
    enabled: bool,
    checkpoints: Seq<Height>,
)
    ensures
        sync.next_backfill_range(enabled, checkpoints) matches Some(range) ==> {
            &&& enabled
            &&& range.priority == RangePriority::Backfill
            &&& range.want_tree_aux_roots
            &&& range.finalized ==> range.end() <= sync.trusted_sync_start.0.0 && range.end()
                > sync.backfill_tip.0 && (range.end() == sync.trusted_sync_start.0.0
                || checkpoints.contains(Height(range.end() as u32)))
            &&& !range.finalized ==> range.start_height == sync.trusted_sync_start.0
                && range.end() == sync.trusted_sync_start.0.0 + 1
        },
{
    lemma_lowest_from(checkpoints, next_or_same(sync.backfill_tip));
    if let Some(range) = sync.next_backfill_range(enabled, checkpoints) {
        if range.finalized {
            let next = next_or_same(sync.backfill_tip);
            match config::lowest_from(checkpoints, next) {
                Some(checkpoint) => {
                    assert(Height(range.end() as u32) == spec_min(
                        checkpoint,
                        sync.trusted_sync_start.0,
                    ));
                },
                None => {},
            }
        }
    }
}

} // verus!
