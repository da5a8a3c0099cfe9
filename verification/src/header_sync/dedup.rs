//! A bounded memory of recently seen block hashes.

use std::collections::VecDeque;

use crate::types::BlockHash;
use crate::vec_map::MapKey;
use vstd::prelude::*;

verus! {

/// The newest `capacity` entries of `order`.
pub open spec fn newest(order: Seq<BlockHash>, capacity: nat) -> Seq<BlockHash> {
    if order.len() > capacity {
        order.skip(order.len() - capacity)
    } else {
        order
    }
}

/// Remembers the newest distinct hashes, oldest first out.
#[derive(Debug)]
pub struct HeaderHashDedup {
    order: VecDeque<BlockHash>,
    capacity: usize,
}

impl View for HeaderHashDedup {
    type V = Seq<BlockHash>;

    closed spec fn view(&self) -> Seq<BlockHash> {
        self.order@
    }
}

impl HeaderHashDedup {
    /// How many hashes are remembered.
    pub closed spec fn limit(&self) -> nat {
        self.capacity as nat
    }

    /// No hash is held twice, and no more than the limit are held.
    pub open spec fn wf(&self) -> bool {
        self@.no_duplicates() && self@.len() <= self.limit()
    }

    /// An empty memory of `capacity` hashes.
    pub fn new(capacity: usize) -> (dedup: Self)
        ensures
            dedup.wf(),
            dedup@ == Seq::<BlockHash>::empty(),
            dedup.limit() == capacity,
    {
        HeaderHashDedup { order: VecDeque::new(), capacity }
    }

    /// Whether `hash` is remembered.
    pub fn contains(&self, hash: &BlockHash) -> (seen: bool)
        ensures
            seen == self@.contains(*hash),
    {
        let mut i: usize = 0;
        while i < self.order.len()
            invariant
                i <= self.order@.len(),
                forall|j: int| 0 <= j < i ==> self.order@[j] != *hash,
            decreases self.order@.len() - i,
        {
            let seen = self.order[i];
            if seen.same_key(hash) {
                assert(self.order@[i as int] == *hash);
                return true;
            }
            i = i + 1;
        }
        false
    }

    /// Remembers `hash` as the newest, and reports whether it was new. The oldest
    /// hashes beyond the limit are forgotten.
    pub fn insert(&mut self, hash: BlockHash) -> (new: bool)
        requires
            old(self).wf(),
        ensures
            final(self).wf(),
            final(self).limit() == old(self).limit(),
            new == !old(self)@.contains(hash),
            final(self)@ == (if new {
                newest(old(self)@.push(hash), old(self).limit())
            } else {
                old(self)@
            }),
    {
        if self.contains(&hash) {
            return false;
        }
        let ghost pushed = self@.push(hash);
        self.order.push_back(hash);
        assert(pushed.no_duplicates());
        assert(pushed.skip(0) =~= pushed);
        while self.order.len() > self.capacity
            invariant
                self.order@.len() <= pushed.len(),
                self.order@ == pushed.skip(pushed.len() - self.order@.len()),
                self.order@.len() < self.capacity ==> self.order@ == pushed,
                self.capacity == old(self).capacity,
            decreases self.order@.len(),
        {
            let ghost before = self.order@;
            self.order.pop_front();
            assert(self.order@ =~= pushed.skip(pushed.len() - self.order@.len()));
        }
        proof {
            let kept = newest(pushed, self.capacity as nat);
            assert(self.order@ =~= kept);
            assert forall|i: int, j: int|
                0 <= i < kept.len() && 0 <= j < kept.len() && i != j implies kept[i] != kept[j] by {
                let cut = pushed.len() - kept.len();
                assert(kept[i] == pushed[cut + i]);
                assert(kept[j] == pushed[cut + j]);
            }
        }
        true
    }
}

/// A hash that was just inserted is remembered, whenever anything can be.
pub proof fn law_newest_hash_is_remembered(order: Seq<BlockHash>, hash: BlockHash, capacity: nat)
    requires
        capacity >= 1,
    ensures
        newest(order.push(hash), capacity).contains(hash),
        newest(order.push(hash), capacity).len() <= capacity,
{
    let kept = newest(order.push(hash), capacity);
    assert(kept[kept.len() - 1] == hash);
}

} // verus!
