//! Which peer sessions currently hold which ranges.

use crate::header_sync::covered::{self, is_covered, CoveredRange};
use crate::header_sync::ranges::{RangePriority, RangeRequest};
use crate::types::{Height, ZakuraPeerId};
use crate::vec_map::{self, MapKey, VecMap};
use vstd::prelude::*;

verus! {

/// A range together with a peer that holds it.
#[derive(Debug)]
pub struct AssignmentKey {
    /// The assigned range.
    pub range: RangeRequest,
    /// The peer it is assigned to.
    pub peer: ZakuraPeerId,
}

impl View for AssignmentKey {
    type V = (RangeRequest, Seq<u8>);

    open spec fn view(&self) -> (RangeRequest, Seq<u8>) {
        (self.range, self.peer@)
    }
}

impl MapKey for AssignmentKey {
    fn same_key(&self, other: &Self) -> (same: bool) {
        self.range.same_key(&other.range) && self.peer.same_key(&other.peer)
    }

    fn duplicate(&self) -> (copy: Self) {
        AssignmentKey { range: self.range, peer: self.peer.duplicate() }
    }
}

/// The generation of the session that holds each assigned range, by range and peer.
pub type AssignmentMap = Map<(RangeRequest, Seq<u8>), u64>;

/// The peers that hold `range`.
pub open spec fn holders(assigned: AssignmentMap, range: RangeRequest) -> Set<Seq<u8>> {
    Set::new(|peer: Seq<u8>| assigned.contains_key((range, peer)))
}

/// Whether any peer holds `range`.
pub open spec fn is_held(assigned: AssignmentMap, range: RangeRequest) -> bool {
    exists|peer: Seq<u8>| #[trigger] assigned.contains_key((range, peer))
}

/// Whether some held range of `priority` starts at `start`.
pub open spec fn holds_start(
    assigned: AssignmentMap,
    start: Height,
    priority: RangePriority,
) -> bool {
    exists|key: (RangeRequest, Seq<u8>)| #[trigger]
        assigned.contains_key(key) && key.0.start_height == start && key.0.priority == priority
}

/// The assignments whose range passes `keep`.
pub open spec fn keep_ranges(
    assigned: AssignmentMap,
    keep: spec_fn(RangeRequest) -> bool,
) -> AssignmentMap {
    Map::new(
        |key: (RangeRequest, Seq<u8>)| assigned.contains_key(key) && keep(key.0),
        |key: (RangeRequest, Seq<u8>)| assigned[key],
    )
}

/// The assignments of every peer but `peer`.
pub open spec fn without_peer(assigned: AssignmentMap, peer: Seq<u8>) -> AssignmentMap {
    Map::new(
        |key: (RangeRequest, Seq<u8>)| assigned.contains_key(key) && key.1 != peer,
        |key: (RangeRequest, Seq<u8>)| assigned[key],
    )
}

/// The assignments after every holder of `from` was moved to `to`. A peer that
/// holds both ends up with the generation under which it held `from`.
pub open spec fn moved_range(
    assigned: AssignmentMap,
    from: RangeRequest,
    to: RangeRequest,
) -> AssignmentMap {
    Map::new(
        |key: (RangeRequest, Seq<u8>)|
            key.0 != from && (assigned.contains_key(key) || (key.0 == to && assigned.contains_key(
                (from, key.1),
            ))),
        |key: (RangeRequest, Seq<u8>)|
            if key.0 == to && assigned.contains_key((from, key.1)) {
                assigned[(from, key.1)]
            } else {
                assigned[key]
            },
    )
}

/// Assigned ranges are well formed.
pub open spec fn ranges_wf(assigned: AssignmentMap) -> bool {
    forall|key: (RangeRequest, Seq<u8>)| #[trigger] assigned.contains_key(key) ==> key.0.wf()
}

/// The number of entries for `range`.
spec fn entry_count(entries: Seq<((RangeRequest, Seq<u8>), u64)>, range: RangeRequest) -> nat
    decreases entries.len(),
{
    if entries.len() == 0 {
        0
    } else {
        entry_count(entries.drop_last(), range) + (if entries.last().0.0 == range {
            1nat
        } else {
            0
        })
    }
}

/// Distinct entries count each holder once.
proof fn lemma_entry_count(entries: Seq<((RangeRequest, Seq<u8>), u64)>, range: RangeRequest)
    requires
        vec_map::distinct_keys(entries),
    ensures
        holders(vec_map::entries_map(entries), range).finite(),
        holders(vec_map::entries_map(entries), range).len() == entry_count(entries, range),
    decreases entries.len(),
{
    if entries.len() == 0 {
        assert(holders(vec_map::entries_map(entries), range) =~= Set::empty());
    } else {
        let prefix = entries.drop_last();
        let last = entries.last();
        assert(vec_map::distinct_keys(prefix));
        lemma_entry_count(prefix, range);
        vec_map::lemma_entries_map(prefix);
        let before = holders(vec_map::entries_map(prefix), range);
        if last.0.0 == range {
            assert(!before.contains(last.0.1)) by {
                if vec_map::entries_map(prefix).contains_key(last.0) {
                    let i = choose|i: int|
                        0 <= i < prefix.len() && (#[trigger] prefix[i]).0 == last.0;
                    assert(entries[i].0 == entries[entries.len() - 1].0);
                }
            }
            assert(last.0 == (range, last.0.1));
            assert(holders(vec_map::entries_map(entries), range) =~= before.insert(last.0.1));
        } else {
            assert(holders(vec_map::entries_map(entries), range) =~= before);
        }
    }
}

/// The live assignments of a scheduler.
#[derive(Debug)]
pub struct Assignments {
    entries: VecMap<AssignmentKey, u64>,
}

impl View for Assignments {
    type V = AssignmentMap;

    closed spec fn view(&self) -> AssignmentMap {
        self.entries@
    }
}

impl Assignments {
    /// No pair of range and peer occurs twice.
    pub closed spec fn wf(&self) -> bool {
        self.entries.wf()
    }

    /// No assignments.
    pub fn new() -> (assignments: Self)
        ensures
            assignments.wf(),
            assignments@ == Map::<(RangeRequest, Seq<u8>), u64>::empty(),
    {
        Assignments { entries: VecMap::new() }
    }

    /// The number of peers that hold `range`.
    pub fn holder_count(&self, range: RangeRequest) -> (count: usize)
        requires
            self.wf(),
        ensures
            holders(self@, range).finite(),
            count == holders(self@, range).len(),
    {
        let ghost order = self.entries.order();
        proof {
            self.entries.lemma_view();
            lemma_entry_count(order, range);
        }
        let mut count: usize = 0;
        let mut i: usize = 0;
        let len = self.entries.len();
        while i < len
            invariant
                i <= len,
                len == order.len(),
                order == self.entries.order(),
                count <= i,
                count == entry_count(order.take(i as int), range),
            decreases len - i,
        {
            proof {
                assert(order.take(i + 1).drop_last() =~= order.take(i as int));
                assert(order.take(i + 1).last() == order[i as int]);
            }
            if self.entries.key_at(i).range.same_key(&range) {
                count = count + 1;
            }
            i = i + 1;
        }
        assert(order.take(i as int) =~= order);
        count
    }

    /// The generation under which `peer` holds `range`.
    pub fn generation(&self, range: RangeRequest, peer: &ZakuraPeerId) -> (generation: Option<u64>)
        requires
            self.wf(),
        ensures
            generation == (if self@.contains_key((range, peer@)) {
                Some(self@[(range, peer@)])
            } else {
                None
            }),
    {
        let key = AssignmentKey { range, peer: peer.duplicate() };
        match self.entries.get(&key) {
            Some(generation) => Some(*generation),
            None => None,
        }
    }

    /// Whether any held range starts at `start` with `priority`.
    pub fn holds_start(&self, start: Height, priority: RangePriority) -> (held: bool)
        requires
            self.wf(),
        ensures
            held == holds_start(self@, start, priority),
    {
        proof {
            self.entries.lemma_view();
        }
        let ghost order = self.entries.order();
        let len = self.entries.len();
        let mut i: usize = 0;
        while i < len
            invariant
                i <= len,
                len == order.len(),
                self.entries.wf(),
                order == self.entries.order(),
                self@ == self.entries@,
                forall|j: int|
                    0 <= j < i ==> !((#[trigger] order[j]).0.0.start_height == start
                        && order[j].0.0.priority == priority),
            decreases len - i,
        {
            let range = &self.entries.key_at(i).range;
            if range.start_height == start && range.priority == priority {
                proof {
                    self.entries.lemma_view();
                    assert(self@.contains_key(order[i as int].0));
                }
                return true;
            }
            i = i + 1;
        }
        proof {
            self.entries.lemma_view();
            assert(self@ == self.entries@);
        }
        false
    }

    /// Whether any peer holds `range`.
    pub fn is_held(&self, range: RangeRequest) -> (held: bool)
        requires
            self.wf(),
        ensures
            held == is_held(self@, range),
    {
        let count = self.holder_count(range);
        proof {
            let peers = holders(self@, range);
            if count == 0 {
                assert(peers =~= Set::empty());
                if is_held(self@, range) {
                    let peer = choose|peer: Seq<u8>| #[trigger] self@.contains_key((range, peer));
                    assert(peers.contains(peer));
                }
            } else {
                let peer = peers.choose();
                assert(peers.contains(peer)) by {
                    if forall|p: Seq<u8>| !peers.contains(p) {
                        assert(peers =~= Set::empty());
                    }
                }
                assert(self@.contains_key((range, peer)));
            }
        }
        count > 0
    }

    /// Records that `peer` holds `range` under `generation`.
    pub fn assign(&mut self, range: RangeRequest, peer: &ZakuraPeerId, generation: u64)
        requires
            old(self).wf(),
        ensures
            final(self).wf(),
            final(self)@ == old(self)@.insert((range, peer@), generation),
    {
        let key = AssignmentKey { range, peer: peer.duplicate() };
        self.entries.insert(key, generation);
    }

    /// Releases `range` from `peer`.
    pub fn release(&mut self, range: RangeRequest, peer: &ZakuraPeerId)
        requires
            old(self).wf(),
        ensures
            final(self).wf(),
            final(self)@ == old(self)@.remove((range, peer@)),
    {
        let key = AssignmentKey { range, peer: peer.duplicate() };
        self.entries.remove(&key);
    }

    /// Releases everything that `peer` holds.
    pub fn release_peer(&mut self, peer: &ZakuraPeerId)
        requires
            old(self).wf(),
        ensures
            final(self).wf(),
            final(self)@ == without_peer(old(self)@, peer@),
    {
        let ghost start = self@;
        let mut i: usize = 0;
        while i < self.entries.len()
            invariant
                i <= self.entries.order().len(),
                self.entries.wf(),
                self@ == self.entries@,
                forall|key: (RangeRequest, Seq<u8>)| #[trigger]
                    self@.contains_key(key) ==> start.contains_key(key) && self@[key] == start[key],
                forall|key: (RangeRequest, Seq<u8>)| #[trigger]
                    start.contains_key(key) && key.1 != peer@ ==> self@.contains_key(key),
                forall|j: int| 0 <= j < i ==> (#[trigger] self.entries.order()[j]).0.1 != peer@,
            decreases self.entries.order().len() - i,
        {
            if self.entries.key_at(i).peer.same_key(peer) {
                self.entries.remove_at(i);
            } else {
                i = i + 1;
            }
        }
        proof {
            self.entries.lemma_view();
            assert(self@ == self.entries@);
            assert(self@ =~= without_peer(start, peer@));
        }
    }

    /// Releases `range` from every peer.
    pub fn release_range(&mut self, range: RangeRequest)
        requires
            old(self).wf(),
        ensures
            final(self).wf(),
            final(self)@ == keep_ranges(old(self)@, |r: RangeRequest| r != range),
    {
        let ghost start = self@;
        let mut i: usize = 0;
        while i < self.entries.len()
            invariant
                i <= self.entries.order().len(),
                self.entries.wf(),
                self@ == self.entries@,
                forall|key: (RangeRequest, Seq<u8>)| #[trigger]
                    self@.contains_key(key) ==> start.contains_key(key) && self@[key] == start[key],
                forall|key: (RangeRequest, Seq<u8>)| #[trigger]
                    start.contains_key(key) && key.0 != range ==> self@.contains_key(key),
                forall|j: int| 0 <= j < i ==> (#[trigger] self.entries.order()[j]).0.0 != range,
            decreases self.entries.order().len() - i,
        {
            if self.entries.key_at(i).range.same_key(&range) {
                self.entries.remove_at(i);
            } else {
                i = i + 1;
            }
        }
        proof {
            self.entries.lemma_view();
            assert(self@ == self.entries@);
            assert(self@ =~= keep_ranges(start, |r: RangeRequest| r != range));
        }
    }

    /// Releases every forward range that ends above `height`.
    pub fn release_forward_above(&mut self, height: Height)
        requires
            old(self).wf(),
            ranges_wf(old(self)@),
        ensures
            final(self).wf(),
            final(self)@ == keep_ranges(
                old(self)@,
                |r: RangeRequest| r.priority != RangePriority::Forward || r.end() <= height.0,
            ),
    {
        let ghost start = self@;
        let mut i: usize = 0;
        while i < self.entries.len()
            invariant
                i <= self.entries.order().len(),
                self.entries.wf(),
                self@ == self.entries@,
                ranges_wf(start),
                forall|key: (RangeRequest, Seq<u8>)| #[trigger]
                    self@.contains_key(key) ==> start.contains_key(key) && self@[key] == start[key],
                forall|key: (RangeRequest, Seq<u8>)| #[trigger]
                    start.contains_key(key) && (key.0.priority != RangePriority::Forward
                        || key.0.end() <= height.0) ==> self@.contains_key(key),
                forall|j: int|
                    0 <= j < i ==> (#[trigger] self.entries.order()[j]).0.0.priority
                        != RangePriority::Forward || self.entries.order()[j].0.0.end() <= height.0,
            decreases self.entries.order().len() - i,
        {
            let range = self.entries.key_at(i).range;
            proof {
                self.entries.lemma_view();
                assert(self@.contains_key(self.entries.order()[i as int].0));
            }
            if range.priority == RangePriority::Forward && range.end_height().0 > height.0 {
                self.entries.remove_at(i);
            } else {
                i = i + 1;
            }
        }
        proof {
            self.entries.lemma_view();
            assert(self@ == self.entries@);
            assert(self@ =~= keep_ranges(
                start,
                |r: RangeRequest| r.priority != RangePriority::Forward || r.end() <= height.0,
            ));
        }
    }

    /// Releases every range that `intervals` cover.
    pub fn release_covered(&mut self, intervals: &Vec<CoveredRange>)
        requires
            old(self).wf(),
            ranges_wf(old(self)@),
            covered::normal_intervals(intervals@),
        ensures
            final(self).wf(),
            final(self)@ == keep_ranges(
                old(self)@,
                |r: RangeRequest| !r.heights().subset_of(covered::covered_heights(intervals@)),
            ),
    {
        let ghost start = self@;
        let mut i: usize = 0;
        while i < self.entries.len()
            invariant
                i <= self.entries.order().len(),
                self.entries.wf(),
                self@ == self.entries@,
                ranges_wf(start),
                covered::normal_intervals(intervals@),
                forall|key: (RangeRequest, Seq<u8>)| #[trigger]
                    self@.contains_key(key) ==> start.contains_key(key) && self@[key] == start[key],
                forall|key: (RangeRequest, Seq<u8>)| #[trigger]
                    start.contains_key(key) && !key.0.heights().subset_of(
                        covered::covered_heights(intervals@),
                    ) ==> self@.contains_key(key),
                forall|j: int|
                    0 <= j < i ==> !(#[trigger] self.entries.order()[j]).0.0.heights().subset_of(
                        covered::covered_heights(intervals@),
                    ),
            decreases self.entries.order().len() - i,
        {
            let range = self.entries.key_at(i).range;
            proof {
                self.entries.lemma_view();
                assert(self@.contains_key(self.entries.order()[i as int].0));
            }
            if is_covered(intervals, range) {
                self.entries.remove_at(i);
            } else {
                i = i + 1;
            }
        }
        proof {
            self.entries.lemma_view();
            assert(self@ == self.entries@);
            assert(self@ =~= keep_ranges(
                start,
                |r: RangeRequest| !r.heights().subset_of(covered::covered_heights(intervals@)),
            ));
        }
    }

    /// Moves every holder of `from` to `to`.
    pub fn move_range(&mut self, from: RangeRequest, to: RangeRequest)
        requires
            old(self).wf(),
            from != to,
        ensures
            final(self).wf(),
            final(self)@ == moved_range(old(self)@, from, to),
    {
        let ghost start = self@;
        let mut moved: Vec<(ZakuraPeerId, u64)> = Vec::new();
        let mut i: usize = 0;
        while i < self.entries.len()
            invariant
                i <= self.entries.order().len(),
                self.entries.wf(),
                self@ == self.entries@,
                forall|key: (RangeRequest, Seq<u8>)| #[trigger]
                    self@.contains_key(key) ==> start.contains_key(key) && self@[key] == start[key],
                forall|key: (RangeRequest, Seq<u8>)| #[trigger]
                    start.contains_key(key) && key.0 != from ==> self@.contains_key(key),
                forall|key: (RangeRequest, Seq<u8>)| #[trigger]
                    start.contains_key(key) && key.0 == from ==> self@.contains_key(key) || exists|
                        j: int,
                    | 0 <= j < moved@.len() && (#[trigger] moved@[j]).0@ == key.1,
                forall|j: int|
                    0 <= j < moved@.len() ==> start.contains_key((from, (#[trigger] moved@[j]).0@))
                        && start[(from, moved@[j].0@)] == moved@[j].1,
                forall|j: int| 0 <= j < i ==> (#[trigger] self.entries.order()[j]).0.0 != from,
            decreases self.entries.order().len() - i,
        {
            if self.entries.key_at(i).range.same_key(&from) {
                let ghost before = moved@;
                let ghost held = self@;
                let ghost gone = self.entries.order()[i as int];
                proof {
                    self.entries.lemma_view();
                    assert(held.contains_key(gone.0));
                }
                let (key, generation) = self.entries.remove_at(i);
                moved.push((key.peer, generation));
                assert forall|key: (RangeRequest, Seq<u8>)| #[trigger]
                    start.contains_key(key) && key.0 == from implies self@.contains_key(key)
                    || exists|j: int| 0 <= j < moved@.len() && (#[trigger] moved@[j]).0@ == key.1 by {
                    if !self@.contains_key(key) {
                        if held.contains_key(key) {
                            assert(key == gone.0);
                            assert(moved@[before.len() as int].0@ == key.1);
                        } else {
                            let j = choose|j: int|
                                0 <= j < before.len() && (#[trigger] before[j]).0@ == key.1;
                            assert(moved@[j].0@ == key.1);
                        }
                    }
                }
            } else {
                i = i + 1;
            }
        }
        let ghost stripped = self@;
        proof {
            self.entries.lemma_view();
            assert(self@ == self.entries@);
        }
        let mut j: usize = 0;
        while j < moved.len()
            invariant
                j <= moved@.len(),
                from != to,
                self.entries.wf(),
                self@ == self.entries@,
                forall|j: int|
                    0 <= j < moved@.len() ==> start.contains_key((from, (#[trigger] moved@[j]).0@))
                        && start[(from, moved@[j].0@)] == moved@[j].1,
                forall|key: (RangeRequest, Seq<u8>)| #[trigger]
                    self@.contains_key(key) ==> stripped.contains_key(key) || (key.0 == to
                        && start.contains_key((from, key.1))),
                forall|key: (RangeRequest, Seq<u8>)| #[trigger]
                    stripped.contains_key(key) ==> self@.contains_key(key),
                forall|t: int|
                    0 <= t < j ==> self@.contains_key((to, (#[trigger] moved@[t]).0@)) && self@[(
                        to,
                        moved@[t].0@,
                    )] == start[(from, moved@[t].0@)],
                forall|key: (RangeRequest, Seq<u8>)| #[trigger]
                    self@.contains_key(key) ==> (self@[key] == stripped[key]
                        && stripped.contains_key(key)) || (key.0 == to && start.contains_key(
                        (from, key.1),
                    ) && self@[key] == start[(from, key.1)]),
            decreases moved@.len() - j,
        {
            let ghost held = self@;
            let key = AssignmentKey { range: to, peer: moved[j].0.duplicate() };
            let generation = moved[j].1;
            self.entries.insert(key, generation);
            assert(self@ == held.insert((to, moved@[j as int].0@), generation));
            j = j + 1;
        }
        proof {
            let target = moved_range(start, from, to);
            assert forall|key: (RangeRequest, Seq<u8>)| #[trigger]
                self@.contains_key(key) == target.contains_key(key) by {
                if key.0 == to && start.contains_key((from, key.1)) {
                    let source = (from, key.1);
                    assert(start.contains_key(source));
                    let t = choose|t: int|
                        0 <= t < moved@.len() && (#[trigger] moved@[t]).0@ == source.1;
                    assert(self@.contains_key((to, moved@[t].0@)));
                    assert(key == (to, moved@[t].0@));
                }
            }
            assert forall|key: (RangeRequest, Seq<u8>)| #[trigger]
                self@.contains_key(key) implies self@[key] == target[key] by {
                if key.0 == to && start.contains_key((from, key.1)) {
                    let source = (from, key.1);
                    assert(start.contains_key(source));
                    let t = choose|t: int|
                        0 <= t < moved@.len() && (#[trigger] moved@[t]).0@ == source.1;
                    assert(key == (to, moved@[t].0@));
                }
            }
            assert(self@ =~= target);
        }
    }
}

} // verus!
