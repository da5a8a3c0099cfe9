//! The shared queue of header ranges and its bookkeeping.

use std::collections::VecDeque;

use crate::header_sync::assignments::{self, AssignmentMap, Assignments};
use crate::header_sync::covered::{self, CoveredRange};
use crate::header_sync::pull_laws;
use crate::header_sync::ranges::{RangePriority, RangeRequest};
use crate::types::{Height, ZakuraPeerId};
use crate::vec_map::MapKey;
use vstd::prelude::*;

verus! {

/// How many distinct peers one range is handed to at a time.
pub const HEADER_SYNC_FANOUT: usize = 3;

/// Per-peer caps a routine carries when it pulls work from the shared queue.
#[derive(Copy, Clone, Debug)]
pub struct PeerPullCaps {
    /// Highest height this peer has advertised; work is never assigned beyond it.
    pub advertised_tip: Height,
    /// This peer's clamped advertised `max_headers_per_response`.
    pub max_headers_per_response: u32,
}

/// Local caps on the number of headers in one request.
#[derive(Copy, Clone, Debug)]
pub struct HeaderRequestLimits {
    /// The protocol's cap on one response.
    pub hard_max: u32,
    /// The most headers that fit one response frame.
    pub frame_max: u32,
}

impl HeaderRequestLimits {
    /// Every cap admits at least one header.
    pub open spec fn wf(self) -> bool {
        self.hard_max >= 1 && self.frame_max >= 1
    }
}

/// The smaller of two counts.
pub open spec fn min_count(a: u32, b: u32) -> u32 {
    if a <= b {
        a
    } else {
        b
    }
}

/// The count that is requested of a peer for a range of `requested` headers.
pub open spec fn clamped_count(requested: u32, peer_max: u32, limits: HeaderRequestLimits) -> u32 {
    min_count(min_count(requested, peer_max), min_count(limits.hard_max, limits.frame_max))
}

/// Clamps a request count against the peer's, the protocol's and the frame's caps.
pub fn clamp_header_sync_request_count(
    requested: u32,
    peer_max: u32,
    limits: HeaderRequestLimits,
) -> (count: u32)
    ensures
        count == clamped_count(requested, peer_max, limits),
{
    let mut count: u32 = requested;
    if peer_max < count {
        count = peer_max;
    }
    if limits.hard_max < count {
        count = limits.hard_max;
    }
    if limits.frame_max < count {
        count = limits.frame_max;
    }
    count
}

/// One narrowed, count-clamped range that a routine took and is about to request.
#[derive(Copy, Clone, Debug, PartialEq, Eq)]
pub struct HeaderWork {
    /// The (possibly narrowed) range to request.
    pub range: RangeRequest,
    /// The clamped request count, the most headers that the response may hold.
    pub count: u32,
}

/// Why a routine returned a previously taken range to the shared queue.
#[derive(Copy, Clone, Debug, PartialEq, Eq, Structural)]
pub enum ReturnReason {
    /// The outbound request failed; the range was never requested.
    SendFailed,
    /// The peer answered with no headers.
    EmptyResponse,
    /// The routine is tearing down.
    Teardown,
    /// The request timed out.
    Timeout,
}

/// What a scheduler holds.
#[verifier::ext_equal]
pub struct SchedulerView {
    /// Queued forward work, next first.
    pub forward: Seq<RangeRequest>,
    /// Queued work below the sync start, next first.
    pub backward: Seq<RangeRequest>,
    /// Live assignments.
    pub assigned: AssignmentMap,
    /// Heights whose headers are held.
    pub covered: Set<int>,
}

/// Whether `i` is the first position of `queue` that passes `pass`.
pub open spec fn is_first(
    queue: Seq<RangeRequest>,
    pass: spec_fn(RangeRequest) -> bool,
    i: int,
) -> bool {
    0 <= i < queue.len() && pass(queue[i]) && forall|j: int| 0 <= j < i ==> !pass(#[trigger] queue[j])
}

/// The first position of `queue` that passes `pass`.
pub open spec fn first_match(
    queue: Seq<RangeRequest>,
    pass: spec_fn(RangeRequest) -> bool,
) -> Option<int> {
    if exists|i: int| is_first(queue, pass, i) {
        Some(choose|i: int| is_first(queue, pass, i))
    } else {
        None
    }
}

/// A first position is the only one.
proof fn lemma_first_match(queue: Seq<RangeRequest>, pass: spec_fn(RangeRequest) -> bool, i: int)
    requires
        is_first(queue, pass, i),
    ensures
        first_match(queue, pass) == Some(i),
{
    let found = choose|k: int| is_first(queue, pass, k);
    assert(is_first(queue, pass, found));
    assert(found < i || i < found || found == i);
}

/// Where nothing passes there is no first position.
proof fn lemma_no_match(queue: Seq<RangeRequest>, pass: spec_fn(RangeRequest) -> bool)
    requires
        forall|j: int| 0 <= j < queue.len() ==> !pass(#[trigger] queue[j]),
    ensures
        first_match(queue, pass) is None,
{
    if exists|i: int| is_first(queue, pass, i) {
        let i = choose|i: int| is_first(queue, pass, i);
        assert(!pass(queue[i]));
    }
}

/// Passes `range` alone.
pub open spec fn equals(range: RangeRequest) -> spec_fn(RangeRequest) -> bool {
    |r: RangeRequest| r == range
}

/// Passes ranges that end at or below `height`.
pub open spec fn ends_within(height: Height) -> spec_fn(RangeRequest) -> bool {
    |r: RangeRequest| r.end() <= height.0
}

/// Passes ranges with a height outside `heights`.
pub open spec fn not_within(heights: Set<int>) -> spec_fn(RangeRequest) -> bool {
    |r: RangeRequest| !r.heights().subset_of(heights)
}

/// `queue` with its first occurrence of `from` rewritten to `to`.
pub open spec fn rewritten(
    queue: Seq<RangeRequest>,
    from: RangeRequest,
    to: RangeRequest,
) -> Seq<RangeRequest> {
    match first_match(queue, equals(from)) {
        Some(i) => queue.update(i, to),
        None => queue,
    }
}

impl SchedulerView {
    /// Nothing is queued, assigned or covered.
    pub open spec fn empty() -> SchedulerView {
        SchedulerView {
            forward: Seq::empty(),
            backward: Seq::empty(),
            assigned: Map::empty(),
            covered: Set::empty(),
        }
    }

    /// Every queued and assigned range is well formed.
    pub open spec fn wf(self) -> bool {
        &&& forall|i: int| 0 <= i < self.forward.len() ==> (#[trigger] self.forward[i]).wf()
        &&& forall|i: int| 0 <= i < self.backward.len() ==> (#[trigger] self.backward[i]).wf()
        &&& assignments::ranges_wf(self.assigned)
    }

    /// The queue of a priority.
    pub open spec fn queue(self, priority: RangePriority) -> Seq<RangeRequest> {
        match priority {
            RangePriority::Forward => self.forward,
            RangePriority::Backfill => self.backward,
        }
    }

    /// The same state with another queue of `priority`.
    pub open spec fn with_queue(
        self,
        priority: RangePriority,
        queue: Seq<RangeRequest>,
    ) -> SchedulerView {
        match priority {
            RangePriority::Forward => SchedulerView { forward: queue, ..self },
            RangePriority::Backfill => SchedulerView { backward: queue, ..self },
        }
    }

    /// Whether every height of `range` is covered.
    pub open spec fn is_covered(self, range: RangeRequest) -> bool {
        range.heights().subset_of(self.covered)
    }

    /// Whether a range of `priority` that starts like `range` is queued or assigned.
    pub open spec fn is_known(self, range: RangeRequest, priority: RangePriority) -> bool {
        ||| assignments::is_held(self.assigned, range)
        ||| assignments::holds_start(self.assigned, range.start_height, priority)
        ||| self.queue(priority).contains(range)
        ||| exists|i: int|
            0 <= i < self.queue(priority).len() && (#[trigger] self.queue(priority)[i]).start_height
                == range.start_height && self.queue(priority)[i].priority == priority
    }

    /// The state after `range` was offered as new work of `priority`.
    pub open spec fn ensured(self, range: RangeRequest, priority: RangePriority) -> SchedulerView {
        if self.is_covered(range) || self.is_known(range, priority) {
            self
        } else {
            self.with_queue(priority, self.queue(priority).push(range))
        }
    }

    /// Whether `range` may be handed to `peer` now.
    pub open spec fn assignable(self, peer: Seq<u8>, tip: Height, range: RangeRequest) -> bool {
        &&& range.end() <= tip.0
        &&& assignments::holders(self.assigned, range).len() < HEADER_SYNC_FANOUT
        &&& !self.assigned.contains_key((range, peer))
    }

    /// The position of the next range for `peer` in the queue of `priority`.
    pub open spec fn next_in(self, priority: RangePriority, peer: Seq<u8>, tip: Height) -> Option<
        int,
    > {
        first_match(self.queue(priority), |r: RangeRequest| self.assignable(peer, tip, r))
    }

    /// The state after the queued range at `i` was handed out once more. It leaves
    /// the queue with its last free place.
    pub open spec fn popped(self, priority: RangePriority, i: int) -> SchedulerView {
        let queue = self.queue(priority);
        let held = assignments::holders(self.assigned, queue[i]).len();
        if held > 0 && held + 1 >= HEADER_SYNC_FANOUT {
            self.with_queue(priority, queue.remove(i))
        } else {
            self
        }
    }

    /// The next range for `peer`, forward work first, and the state after it.
    pub open spec fn next_for_peer(self, peer: Seq<u8>, tip: Height) -> (
        Option<RangeRequest>,
        SchedulerView,
    ) {
        match self.next_in(RangePriority::Forward, peer, tip) {
            Some(i) => (Some(self.forward[i]), self.popped(RangePriority::Forward, i)),
            None => match self.next_in(RangePriority::Backfill, peer, tip) {
                Some(i) => (Some(self.backward[i]), self.popped(RangePriority::Backfill, i)),
                None => (None, self),
            },
        }
    }

    /// The state after `peer` was recorded as a holder of `range`.
    pub open spec fn assigned_to(
        self,
        peer: Seq<u8>,
        generation: u64,
        range: RangeRequest,
    ) -> SchedulerView {
        SchedulerView { assigned: self.assigned.insert((range, peer), generation), ..self }
    }

    /// The state after a queued range was cut down to a shorter one.
    pub open spec fn narrowed(self, from: RangeRequest, to: RangeRequest) -> SchedulerView {
        if from == to {
            self
        } else {
            let queue = rewritten(self.queue(from.priority), from, to);
            SchedulerView {
                assigned: assignments::moved_range(self.assigned, from, to),
                ..self.with_queue(from.priority, queue)
            }
        }
    }

    /// The state after `range` went back to the front of its queue, unless covered.
    pub open spec fn retried(self, range: RangeRequest) -> SchedulerView {
        if self.is_covered(range) {
            self
        } else {
            self.with_queue(range.priority, seq![range] + self.queue(range.priority))
        }
    }

    /// What `peer` gets from a pull, and the state after it.
    pub open spec fn taken(
        self,
        peer: Seq<u8>,
        generation: u64,
        caps: PeerPullCaps,
        limits: HeaderRequestLimits,
    ) -> (Option<HeaderWork>, SchedulerView) {
        let (next, popped) = self.next_for_peer(peer, caps.advertised_tip);
        match next {
            None => (None, popped),
            Some(original) => {
                let count = clamped_count(original.count, caps.max_headers_per_response, limits);
                let range = original.with_count(count);
                if original.finalized && count < original.count {
                    (None, popped.retried(original))
                } else {
                    (
                        Some(HeaderWork { range, count }),
                        popped.narrowed(original, range).assigned_to(peer, generation, range),
                    )
                }
            },
        }
    }

    /// Whether another session of `peer` than `generation` holds `range`.
    pub open spec fn held_by_other(
        self,
        peer: Seq<u8>,
        generation: u64,
        range: RangeRequest,
    ) -> bool {
        self.assigned.contains_key((range, peer)) && self.assigned[(range, peer)] != generation
    }

    /// The state after a session gave `range` back. Where another session of the peer holds
    /// it, nothing changes.
    pub open spec fn returned(
        self,
        peer: Seq<u8>,
        generation: u64,
        range: RangeRequest,
        reason: ReturnReason,
    ) -> SchedulerView {
        if self.held_by_other(peer, generation, range) {
            self
        } else if reason != ReturnReason::Timeout {
            SchedulerView { assigned: self.assigned.remove((range, peer)), ..self }.retried(range)
        } else {
            self.retried(range)
        }
    }

    /// The state without covered work.
    pub open spec fn pruned(self) -> SchedulerView {
        let keep = not_within(self.covered);
        SchedulerView {
            forward: self.forward.filter(keep),
            backward: self.backward.filter(keep),
            assigned: assignments::keep_ranges(self.assigned, keep),
            ..self
        }
    }

    /// The state after the heights `start..=end` were covered.
    pub open spec fn range_covered(self, start: Height, end: Height) -> SchedulerView {
        let heights = CoveredRange { start, end }.heights();
        SchedulerView { covered: self.covered.union(heights), ..self }.pruned()
    }

    /// The state without forward work that ends above `height`.
    pub open spec fn reset_above(self, height: Height) -> SchedulerView {
        SchedulerView {
            forward: self.forward.filter(ends_within(height)),
            assigned: assignments::keep_ranges(
                self.assigned,
                |r: RangeRequest| r.priority != RangePriority::Forward || r.end() <= height.0,
            ),
            ..self
        }
    }
}

/// Whether `queue` holds `range`, or a range of `priority` with the same start.
fn queue_knows(
    queue: &VecDeque<RangeRequest>,
    range: RangeRequest,
    priority: RangePriority,
) -> (known: bool)
    ensures
        known == (queue@.contains(range) || exists|i: int|
            0 <= i < queue@.len() && (#[trigger] queue@[i]).start_height == range.start_height
                && queue@[i].priority == priority),
{
    let mut i: usize = 0;
    while i < queue.len()
        invariant
            i <= queue@.len(),
            forall|j: int|
                0 <= j < i ==> (#[trigger] queue@[j]) != range && !(queue@[j].start_height
                    == range.start_height && queue@[j].priority == priority),
        decreases queue@.len() - i,
    {
        let queued = queue[i];
        if queued.same_key(&range) || (queued.start_height == range.start_height && queued.priority
            == priority) {
            assert(queue@[i as int] == queued);
            return true;
        }
        i = i + 1;
    }
    false
}

/// `queue` with its first occurrence of `from` rewritten to `to`.
fn rewrite_first(queue: &mut VecDeque<RangeRequest>, from: RangeRequest, to: RangeRequest)
    ensures
        final(queue)@ == rewritten(old(queue)@, from, to),
{
    let ghost before = queue@;
    let ghost pass = equals(from);
    let mut i: usize = 0;
    while i < queue.len()
        invariant
            i <= queue@.len(),
            queue@ == before,
            pass == equals(from),
            before == old(queue)@,
            forall|j: int| 0 <= j < i ==> !pass(#[trigger] before[j]),
        decreases queue@.len() - i,
    {
        let queued = queue[i];
        if queued.same_key(&from) {
            proof {
                assert(is_first(before, pass, i as int));
                lemma_first_match(before, pass, i as int);
            }
            queue.remove(i);
            queue.insert(i, to);
            assert(queue@ =~= before.update(i as int, to));
            return ;
        }
        i = i + 1;
    }
    proof {
        lemma_no_match(before, pass);
    }
}

/// The queued ranges that end at or below `height`.
fn ending_at_most(queue: &VecDeque<RangeRequest>, height: Height) -> (kept: VecDeque<RangeRequest>)
    requires
        forall|i: int| 0 <= i < queue@.len() ==> (#[trigger] queue@[i]).wf(),
    ensures
        kept@ == queue@.filter(ends_within(height)),
{
    let ghost keep = ends_within(height);
    let mut kept: VecDeque<RangeRequest> = VecDeque::new();
    let mut i: usize = 0;
    proof {
        reveal(Seq::filter);
        assert(queue@.take(0).filter(keep) =~= Seq::empty());
    }
    while i < queue.len()
        invariant
            i <= queue@.len(),
            keep == ends_within(height),
            forall|i: int| 0 <= i < queue@.len() ==> (#[trigger] queue@[i]).wf(),
            kept@ == queue@.take(i as int).filter(keep),
        decreases queue@.len() - i,
    {
        let range = queue[i];
        proof {
            reveal(Seq::filter);
            assert(queue@.take(i + 1).drop_last() =~= queue@.take(i as int));
            assert(queue@.take(i + 1).last() == range);
        }
        if range.end_height().0 <= height.0 {
            kept.push_back(range);
        }
        i = i + 1;
    }
    assert(queue@.take(i as int) =~= queue@);
    kept
}

/// The queued ranges that `intervals` do not cover.
fn not_covered(queue: &VecDeque<RangeRequest>, intervals: &Vec<CoveredRange>) -> (kept: VecDeque<
    RangeRequest,
>)
    requires
        forall|i: int| 0 <= i < queue@.len() ==> (#[trigger] queue@[i]).wf(),
        covered::normal_intervals(intervals@),
    ensures
        kept@ == queue@.filter(not_within(covered::covered_heights(intervals@))),
{
    let ghost keep = not_within(covered::covered_heights(intervals@));
    let mut kept: VecDeque<RangeRequest> = VecDeque::new();
    let mut i: usize = 0;
    proof {
        reveal(Seq::filter);
        assert(queue@.take(0).filter(keep) =~= Seq::empty());
    }
    while i < queue.len()
        invariant
            i <= queue@.len(),
            covered::normal_intervals(intervals@),
            keep == not_within(covered::covered_heights(intervals@)),
            forall|i: int| 0 <= i < queue@.len() ==> (#[trigger] queue@[i]).wf(),
            kept@ == queue@.take(i as int).filter(keep),
        decreases queue@.len() - i,
    {
        let range = queue[i];
        proof {
            reveal(Seq::filter);
            assert(queue@.take(i + 1).drop_last() =~= queue@.take(i as int));
            assert(queue@.take(i + 1).last() == range);
        }
        if !covered::is_covered(intervals, range) {
            kept.push_back(range);
        }
        i = i + 1;
    }
    assert(queue@.take(i as int) =~= queue@);
    kept
}

/// The queue of header ranges shared by the producer of work and every peer routine.
#[derive(Debug)]
pub struct RangeScheduler {
    forward: VecDeque<RangeRequest>,
    backward: VecDeque<RangeRequest>,
    assigned: Assignments,
    covered: Vec<CoveredRange>,
}

impl View for RangeScheduler {
    type V = SchedulerView;

    closed spec fn view(&self) -> SchedulerView {
        SchedulerView {
            forward: self.forward@,
            backward: self.backward@,
            assigned: self.assigned@,
            covered: covered::covered_heights(self.covered@),
        }
    }
}

impl RangeScheduler {
    /// Ranges are well formed and the covered intervals are in normal form.
    pub closed spec fn wf(&self) -> bool {
        &&& self@.wf()
        &&& self.assigned.wf()
        &&& covered::normal_intervals(self.covered@)
    }

    /// An empty scheduler.
    pub fn new() -> (scheduler: Self)
        ensures
            scheduler.wf(),
            scheduler@ == SchedulerView::empty(),
    {
        let scheduler = RangeScheduler {
            forward: VecDeque::new(),
            backward: VecDeque::new(),
            assigned: Assignments::new(),
            covered: Vec::new(),
        };
        assert(scheduler@.covered =~= Set::empty());
        scheduler
    }

    /// The queued ranges of a priority, next first.
    pub fn queued(&self, priority: RangePriority) -> (ranges: Vec<RangeRequest>)
        ensures
            ranges@ == self@.queue(priority),
    {
        let queue = match priority {
            RangePriority::Forward => &self.forward,
            RangePriority::Backfill => &self.backward,
        };
        let mut ranges: Vec<RangeRequest> = Vec::new();
        let mut i: usize = 0;
        while i < queue.len()
            invariant
                i <= queue@.len(),
                ranges@ == queue@.take(i as int),
            decreases queue@.len() - i,
        {
            ranges.push(queue[i]);
            i = i + 1;
            assert(ranges@ =~= queue@.take(i as int));
        }
        assert(queue@.take(i as int) =~= queue@);
        ranges
    }

    /// The generation of the session of `peer` that holds `range`.
    pub fn holder_generation(&self, range: RangeRequest, peer: &ZakuraPeerId) -> (generation:
        Option<u64>)
        requires
            self.wf(),
        ensures
            generation == (if self@.assigned.contains_key((range, peer@)) {
                Some(self@.assigned[(range, peer@)])
            } else {
                None
            }),
    {
        self.assigned.generation(range, peer)
    }

    /// Whether any peer holds `range`.
    pub fn is_assigned(&self, range: RangeRequest) -> (held: bool)
        requires
            self.wf(),
        ensures
            held == assignments::is_held(self@.assigned, range),
    {
        self.assigned.is_held(range)
    }

    /// Queues forward work unless it is covered, queued or assigned already.
    pub fn ensure_forward(&mut self, range: RangeRequest)
        requires
            old(self).wf(),
            range.wf(),
        ensures
            final(self).wf(),
            final(self)@ == old(self)@.ensured(range, RangePriority::Forward),
    {
        self.ensure(range, RangePriority::Forward);
    }

    /// Queues backward work unless it is covered, queued or assigned already.
    pub fn ensure_backward(&mut self, range: RangeRequest)
        requires
            old(self).wf(),
            range.wf(),
        ensures
            final(self).wf(),
            final(self)@ == old(self)@.ensured(range, RangePriority::Backfill),
    {
        self.ensure(range, RangePriority::Backfill);
    }

    /// Queues work below the sync start unless it is covered, queued or assigned already.
    pub fn ensure_backfill(&mut self, range: RangeRequest)
        requires
            old(self).wf(),
            range.wf(),
        ensures
            final(self).wf(),
            final(self)@ == old(self)@.ensured(range, RangePriority::Backfill),
    {
        self.ensure(range, RangePriority::Backfill);
    }

    /// Queues `range` under `priority` unless it is covered, queued or assigned already.
    pub fn ensure(&mut self, range: RangeRequest, priority: RangePriority)
        requires
            old(self).wf(),
            range.wf(),
        ensures
            final(self).wf(),
            final(self)@ == old(self)@.ensured(range, priority),
    {
        if self.is_covered(range) || self.assigned.is_held(range) || self.assigned.holds_start(
            range.start_height,
            priority,
        ) {
            return ;
        }
        match priority {
            RangePriority::Forward => {
                if !queue_knows(&self.forward, range, priority) {
                    self.forward.push_back(range);
                }
            },
            RangePriority::Backfill => {
                if !queue_knows(&self.backward, range, priority) {
                    self.backward.push_back(range);
                }
            },
        }
        proof {
            let before = old(self)@;
            assert forall|i: int| 0 <= i < self@.forward.len() implies (
            #[trigger] self@.forward[i]).wf() by {
                assert(self@.forward[i] == range || self@.forward[i] == before.forward[i]);
            }
            assert forall|i: int| 0 <= i < self@.backward.len() implies (
            #[trigger] self@.backward[i]).wf() by {
                assert(self@.backward[i] == range || self@.backward[i] == before.backward[i]);
            }
        }
    }

    /// The next range for `peer`, forward work first. A range that this hands to its
    /// last free place leaves its queue.
    pub fn next_for_peer(&mut self, peer: &ZakuraPeerId, advertised_tip: Height) -> (range: Option<
        RangeRequest,
    >)
        requires
            old(self).wf(),
        ensures
            final(self).wf(),
            range == old(self)@.next_for_peer(peer@, advertised_tip).0,
            final(self)@ == old(self)@.next_for_peer(peer@, advertised_tip).1,
            range matches Some(range) ==> range.wf(),
    {
        match self.pop_assignable(RangePriority::Forward, peer, advertised_tip) {
            Some(range) => Some(range),
            None => self.pop_assignable(RangePriority::Backfill, peer, advertised_tip),
        }
    }

    /// The first assignable range in the queue of `priority`.
    pub fn pop_assignable(
        &mut self,
        priority: RangePriority,
        peer: &ZakuraPeerId,
        advertised_tip: Height,
    ) -> (range: Option<RangeRequest>)
        requires
            old(self).wf(),
        ensures
            final(self).wf(),
            match old(self)@.next_in(priority, peer@, advertised_tip) {
                Some(i) => range == Some(old(self)@.queue(priority)[i]) && final(self)@ == old(
                    self,
                )@.popped(priority, i),
                None => range is None && final(self)@ == old(self)@,
            },
            range matches Some(range) ==> range.wf(),
    {
        let ghost before = self@;
        let ghost pass = |r: RangeRequest| before.assignable(peer@, advertised_tip, r);
        let len: usize = match priority {
            RangePriority::Forward => self.forward.len(),
            RangePriority::Backfill => self.backward.len(),
        };
        let mut i: usize = 0;
        while i < len
            invariant
                i <= len,
                len == before.queue(priority).len(),
                self.wf(),
                self@ == before,
                before == old(self)@,
                pass == (|r: RangeRequest| before.assignable(peer@, advertised_tip, r)),
                forall|j: int| 0 <= j < i ==> !pass(#[trigger] before.queue(priority)[j]),
            decreases len - i,
        {
            let range = match priority {
                RangePriority::Forward => self.forward[i],
                RangePriority::Backfill => self.backward[i],
            };
            assert(range == before.queue(priority)[i as int]);
            let held = self.assigned.holder_count(range);
            if range.end_height().0 <= advertised_tip.0 && held < HEADER_SYNC_FANOUT
                && self.assigned.generation(range, peer).is_none() {
                proof {
                    assert(is_first(before.queue(priority), pass, i as int));
                    lemma_first_match(before.queue(priority), pass, i as int);
                }
                if held > 0 && held + 1 >= HEADER_SYNC_FANOUT {
                    match priority {
                        RangePriority::Forward => {
                            self.forward.remove(i);
                        },
                        RangePriority::Backfill => {
                            self.backward.remove(i);
                        },
                    }
                    assert(self@ =~= before.popped(priority, i as int));
                }
                return Some(range);
            }
            i = i + 1;
        }
        proof {
            lemma_no_match(before.queue(priority), pass);
        }
        None
    }

    /// Records that the session `generation` of `peer` holds `range`.
    pub fn mark_assigned(&mut self, peer: &ZakuraPeerId, generation: u64, range: RangeRequest)
        requires
            old(self).wf(),
            range.wf(),
        ensures
            final(self).wf(),
            final(self)@ == old(self)@.assigned_to(peer@, generation, range),
    {
        let ghost before = self@;
        self.assigned.assign(range, peer, generation);
        proof {
            assert(self@ =~= before.assigned_to(peer@, generation, range));
            assert forall|key: (RangeRequest, Seq<u8>)| #[trigger]
                self@.assigned.contains_key(key) implies key.0.wf() by {
                assert(key == (range, peer@) || before.assigned.contains_key(key));
            }
        }
    }

    /// Pulls, narrows, clamps and assigns one eligible range for this peer.
    ///
    /// The highest-priority assignable range within the peer's advertised tip is
    /// clamped to the caps; a finalized range that would shrink is put back instead,
    /// since it is only useful whole. The queued entry is rewritten to the narrowed
    /// range, and the assignment is recorded under this session's generation.
    pub fn take_for_peer(
        &mut self,
        peer: &ZakuraPeerId,
        generation: u64,
        caps: PeerPullCaps,
        limits: HeaderRequestLimits,
    ) -> (work: Option<HeaderWork>)
        requires
            old(self).wf(),
            caps.max_headers_per_response >= 1,
            limits.wf(),
        ensures
            final(self).wf(),
            work == old(self)@.taken(peer@, generation, caps, limits).0,
            final(self)@ == old(self)@.taken(peer@, generation, caps, limits).1,
            work matches Some(work) ==> work.range.wf() && work.count == work.range.count,
            work matches Some(work) ==> {
                &&& exists|whole: RangeRequest|
                    {
                        &&& #[trigger] pull_laws::is_open_to(
                            old(self)@,
                            peer@,
                            caps.advertised_tip,
                            whole,
                        )
                        &&& old(self)@.forward.contains(whole) || old(self)@.backward.contains(
                            whole,
                        )
                        &&& pull_laws::is_prefix_of(work.range, whole)
                        &&& pull_laws::is_most(work.range.count, whole, caps, limits)
                    }
                &&& work.range.start_height.0 + work.range.count - 1 <= caps.advertised_tip.0
            },
    {
        proof {
            pull_laws::law_work_is_a_prefix_of_queued_work(self@, peer@, generation, caps, limits);
        }
        let original = match self.next_for_peer(peer, caps.advertised_tip) {
            Some(original) => original,
            None => {
                return None;
            },
        };
        let count = clamp_header_sync_request_count(
            original.count,
            caps.max_headers_per_response,
            limits,
        );
        if original.finalized && count < original.count {
            self.retry(original);
            return None;
        }
        let mut range = original;
        range.count = count;
        assert(range == original.with_count(count));
        self.narrow_queued_range(original, range);
        self.mark_assigned(peer, generation, range);
        Some(HeaderWork { range, count })
    }

    /// Returns a previously taken range to the front of its queue.
    ///
    /// The return is scoped to the session: one whose generation does not match the
    /// recorded assignment is ignored. A timeout keeps the assignment, so that the peer
    /// that let the request time out does not take the range again at once.
    pub fn return_work(
        &mut self,
        peer: &ZakuraPeerId,
        generation: u64,
        range: RangeRequest,
        reason: ReturnReason,
    )
        requires
            old(self).wf(),
            range.wf(),
        ensures
            final(self).wf(),
            final(self)@ == old(self)@.returned(peer@, generation, range, reason),
    {
        let held = self.assigned.generation(range, peer);
        let held_by_other = match held {
            Some(held) => held != generation,
            None => false,
        };
        if held_by_other {
            return ;
        }
        if held.is_some() && reason != ReturnReason::Timeout {
            self.assigned.release(range, peer);
        }
        proof {
            if held is None {
                assert(self@.assigned.remove((range, peer@)) =~= self@.assigned);
            }
        }
        self.retry(range);
    }

    /// Rewrites the queued `original` to `narrowed`, and moves its holders along.
    pub fn narrow_queued_range(&mut self, original: RangeRequest, narrowed: RangeRequest)
        requires
            old(self).wf(),
            narrowed.wf(),
        ensures
            final(self).wf(),
            final(self)@ == old(self)@.narrowed(original, narrowed),
    {
        if original.same_key(&narrowed) {
            return ;
        }
        let ghost before = self@;
        match original.priority {
            RangePriority::Forward => rewrite_first(&mut self.forward, original, narrowed),
            RangePriority::Backfill => rewrite_first(&mut self.backward, original, narrowed),
        }
        self.assigned.move_range(original, narrowed);
        proof {
            assert(self@ =~= before.narrowed(original, narrowed));
            let queue = before.queue(original.priority);
            let next = rewritten(queue, original, narrowed);
            assert forall|i: int| 0 <= i < next.len() implies (#[trigger] next[i]).wf() by {
                assert(next[i] == narrowed || next[i] == queue[i]);
            }
            assert forall|key: (RangeRequest, Seq<u8>)| #[trigger]
                self@.assigned.contains_key(key) implies key.0.wf() by {
                if !before.assigned.contains_key(key) {
                    assert(key.0 == narrowed);
                }
            }
        }
    }

    /// Puts `range` back to the front of its queue, unless it is covered.
    pub fn retry(&mut self, range: RangeRequest)
        requires
            old(self).wf(),
            range.wf(),
        ensures
            final(self).wf(),
            final(self)@ == old(self)@.retried(range),
    {
        if self.is_covered(range) {
            return ;
        }
        match range.priority {
            RangePriority::Forward => self.forward.push_front(range),
            RangePriority::Backfill => self.backward.push_front(range),
        }
        assert(self@ =~= old(self)@.retried(range));
    }

    /// Releases everything that `peer` holds.
    pub fn forget_peer(&mut self, peer: &ZakuraPeerId)
        requires
            old(self).wf(),
        ensures
            final(self).wf(),
            final(self)@ == (SchedulerView {
                assigned: assignments::without_peer(old(self)@.assigned, peer@),
                ..old(self)@
            }),
    {
        self.assigned.release_peer(peer);
    }

    /// Releases `range` from every peer.
    pub fn clear_assignment(&mut self, range: RangeRequest)
        requires
            old(self).wf(),
        ensures
            final(self).wf(),
            final(self)@ == (SchedulerView {
                assigned: assignments::keep_ranges(
                    old(self)@.assigned,
                    |r: RangeRequest| r != range,
                ),
                ..old(self)@
            }),
    {
        self.assigned.release_range(range);
    }

    /// Drops queued and assigned forward work that ends above `height`.
    pub fn reset_above(&mut self, height: Height)
        requires
            old(self).wf(),
        ensures
            final(self).wf(),
            final(self)@ == old(self)@.reset_above(height),
    {
        let ghost before = self@;
        assert(before.forward == self.forward@);
        self.forward = ending_at_most(&self.forward, height);
        self.assigned.release_forward_above(height);
        proof {
            lemma_filter_wf(before.forward, ends_within(height));
            assert(self@ =~= before.reset_above(height));
        }
    }

    /// Covers one height.
    pub fn mark_height_covered(&mut self, height: Height)
        requires
            old(self).wf(),
        ensures
            final(self).wf(),
            final(self)@ == old(self)@.range_covered(height, height),
    {
        self.mark_range_covered(height, height);
    }

    /// Covers the heights `start..=end` and drops work that is covered now.
    pub fn mark_range_covered(&mut self, start: Height, end: Height)
        requires
            old(self).wf(),
        ensures
            final(self).wf(),
            final(self)@ == old(self)@.range_covered(start, end),
    {
        self.mark_covered_interval(CoveredRange { start, end });
        self.prune_covered();
    }

    /// Whether every height of `range` is covered.
    pub fn is_covered(&self, range: RangeRequest) -> (is_covered: bool)
        requires
            self.wf(),
            range.wf(),
        ensures
            is_covered == self@.is_covered(range),
    {
        covered::is_covered(&self.covered, range)
    }

    /// Adds `interval` to the covered heights.
    pub fn mark_covered_interval(&mut self, interval: CoveredRange)
        requires
            old(self).wf(),
        ensures
            final(self).wf(),
            final(self)@ == (SchedulerView {
                covered: old(self)@.covered.union(interval.heights()),
                ..old(self)@
            }),
    {
        self.covered = covered::with_interval(&self.covered, interval);
    }

    /// Drops queued and assigned work that is covered.
    pub fn prune_covered(&mut self)
        requires
            old(self).wf(),
        ensures
            final(self).wf(),
            final(self)@ == old(self)@.pruned(),
    {
        let ghost before = self@;
        let ghost keep = not_within(before.covered);
        assert(before.forward == self.forward@ && before.backward == self.backward@);
        self.forward = not_covered(&self.forward, &self.covered);
        self.backward = not_covered(&self.backward, &self.covered);
        self.assigned.release_covered(&self.covered);
        proof {
            lemma_filter_wf(before.forward, keep);
            lemma_filter_wf(before.backward, keep);
            assert(self@.assigned =~= assignments::keep_ranges(before.assigned, keep));
            assert(self@ =~= before.pruned());
        }
    }
}

/// Filtering keeps well-formed ranges well formed.
proof fn lemma_filter_wf(queue: Seq<RangeRequest>, keep: spec_fn(RangeRequest) -> bool)
    requires
        forall|i: int| 0 <= i < queue.len() ==> (#[trigger] queue[i]).wf(),
    ensures
        forall|i: int| 0 <= i < queue.filter(keep).len() ==> (#[trigger] queue.filter(keep)[i]).wf(),
{
    lemma_filter_members(queue, keep);
    assert forall|i: int| 0 <= i < queue.filter(keep).len() implies (#[trigger] queue.filter(
        keep,
    )[i]).wf() by {
        let range = queue.filter(keep)[i];
        let j = choose|j: int| 0 <= j < queue.len() && queue[j] == range;
        assert(queue[j].wf());
    }
}

/// What filtering keeps was in the queue and passes.
proof fn lemma_filter_members(queue: Seq<RangeRequest>, keep: spec_fn(RangeRequest) -> bool)
    ensures
        forall|i: int|
            0 <= i < queue.filter(keep).len() ==> queue.contains(
                #[trigger] queue.filter(keep)[i],
            ) && keep(queue.filter(keep)[i]),
    decreases queue.len(),
{
    reveal(Seq::filter);
    if queue.len() > 0 {
        let rest = queue.drop_last();
        lemma_filter_members(rest, keep);
        assert forall|i: int| 0 <= i < queue.filter(keep).len() implies queue.contains(
            #[trigger] queue.filter(keep)[i],
        ) && keep(queue.filter(keep)[i]) by {
            let range = queue.filter(keep)[i];
            if i < rest.filter(keep).len() {
                assert(rest.filter(keep)[i] == range);
                let j = choose|j: int| 0 <= j < rest.len() && rest[j] == range;
                assert(queue[j] == range);
            } else {
                assert(queue[queue.len() - 1] == range);
            }
        }
    }
}

} // verus!
