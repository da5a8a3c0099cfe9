//! A small association map kept in insertion order.
//!
//! Keys compare by their view, so a key type may hold heap data (a peer id) and
//! still be looked up by what it stands for.

use vstd::prelude::*;

verus! {

/// A key of a [`VecMap`]: equality and duplication are exact on the view.
pub trait MapKey: View + Sized {
    /// Whether both keys stand for the same value.
    fn same_key(&self, other: &Self) -> (same: bool)
        ensures
            same == (self@ == other@),
    ;

    /// Another key that stands for the same value.
    fn duplicate(&self) -> (copy: Self)
        ensures
            copy@ == self@,
    ;
}

impl MapKey for u16 {
    fn same_key(&self, other: &Self) -> (same: bool) {
        *self == *other
    }

    fn duplicate(&self) -> (copy: Self) {
        *self
    }
}

/// The map that a sequence of entries stands for.
pub open spec fn entries_map<K, V>(entries: Seq<(K, V)>) -> Map<K, V>
    decreases entries.len(),
{
    if entries.len() == 0 {
        Map::empty()
    } else {
        entries_map(entries.drop_last()).insert(entries.last().0, entries.last().1)
    }
}

/// No key occurs twice.
pub open spec fn distinct_keys<K, V>(entries: Seq<(K, V)>) -> bool {
    forall|i: int, j: int|
        0 <= i < j < entries.len() ==> (#[trigger] entries[i]).0 != (#[trigger] entries[j]).0
}

/// The map of distinct entries holds exactly those entries, and as many keys.
pub proof fn lemma_entries_map<K, V>(entries: Seq<(K, V)>)
    requires
        distinct_keys(entries),
    ensures
        entries_map(entries).dom().finite(),
        entries_map(entries).len() == entries.len(),
        forall|i: int|
            0 <= i < entries.len() ==> entries_map(entries).contains_key(
                (#[trigger] entries[i]).0,
            ) && entries_map(entries)[entries[i].0] == entries[i].1,
        forall|k: K|
            entries_map(entries).contains_key(k) ==> exists|i: int|
                0 <= i < entries.len() && (#[trigger] entries[i]).0 == k,
    decreases entries.len(),
{
    if entries.len() > 0 {
        let prefix = entries.drop_last();
        assert(distinct_keys(prefix));
        lemma_entries_map(prefix);
        let last = entries.last();
        assert(!entries_map(prefix).contains_key(last.0)) by {
            if entries_map(prefix).contains_key(last.0) {
                let i = choose|i: int| 0 <= i < prefix.len() && (#[trigger] prefix[i]).0 == last.0;
                assert(entries[i].0 == entries[entries.len() - 1].0);
            }
        }
        assert forall|i: int| 0 <= i < entries.len() implies entries_map(entries).contains_key(
            (#[trigger] entries[i]).0,
        ) && entries_map(entries)[entries[i].0] == entries[i].1 by {
            if i < prefix.len() {
                assert(prefix[i] == entries[i]);
                assert(entries[i].0 != entries[entries.len() - 1].0);
            }
        }
        assert forall|k: K| entries_map(entries).contains_key(k) implies exists|i: int|
            0 <= i < entries.len() && (#[trigger] entries[i]).0 == k by {
            if k == last.0 {
                assert(entries[entries.len() - 1].0 == k);
            } else {
                let i = choose|i: int| 0 <= i < prefix.len() && (#[trigger] prefix[i]).0 == k;
                assert(entries[i].0 == k);
            }
        }
    }
}

/// Dropping the entry at `i` drops its key from the map.
proof fn lemma_remove_entry<K, V>(entries: Seq<(K, V)>, i: int)
    requires
        distinct_keys(entries),
        0 <= i < entries.len(),
    ensures
        distinct_keys(entries.remove(i)),
        entries_map(entries.remove(i)) == entries_map(entries).remove(entries[i].0),
{
    let rest = entries.remove(i);
    let key = entries[i].0;
    assert(distinct_keys(rest));
    lemma_entries_map(entries);
    lemma_entries_map(rest);
    assert forall|k: K| #[trigger]
        entries_map(rest).contains_key(k) == entries_map(entries).remove(key).contains_key(k) by {
        if entries_map(rest).contains_key(k) {
            let j = choose|j: int| 0 <= j < rest.len() && (#[trigger] rest[j]).0 == k;
            let at = if j < i { j } else { j + 1 };
            assert(entries[at] == rest[j]);
            assert(entries[i].0 != entries[at].0);
        }
        if entries_map(entries).remove(key).contains_key(k) {
            let j = choose|j: int| 0 <= j < entries.len() && (#[trigger] entries[j]).0 == k;
            let at = if j < i { j } else { j - 1 };
            assert(rest[at] == entries[j]);
        }
    }
    assert forall|k: K| #[trigger] entries_map(rest).contains_key(k) implies entries_map(rest)[k]
        == entries_map(entries)[k] by {
        let j = choose|j: int| 0 <= j < rest.len() && (#[trigger] rest[j]).0 == k;
        let at = if j < i { j } else { j + 1 };
        assert(entries[at] == rest[j]);
    }
    assert(entries_map(rest) =~= entries_map(entries).remove(key));
}

/// Replacing the value at `i` overwrites it in the map.
proof fn lemma_update_entry<K, V>(entries: Seq<(K, V)>, i: int, value: V)
    requires
        distinct_keys(entries),
        0 <= i < entries.len(),
    ensures
        distinct_keys(entries.update(i, (entries[i].0, value))),
        entries_map(entries.update(i, (entries[i].0, value))) == entries_map(entries).insert(
            entries[i].0,
            value,
        ),
{
    let key = entries[i].0;
    let next = entries.update(i, (key, value));
    assert forall|a: int, b: int| 0 <= a < b < next.len() implies (#[trigger] next[a]).0 != (
    #[trigger] next[b]).0 by {
        assert(entries[a].0 != entries[b].0);
    }
    lemma_entries_map(entries);
    lemma_entries_map(next);
    assert forall|k: K| #[trigger]
        entries_map(next).contains_key(k) == entries_map(entries).insert(key, value).contains_key(
            k,
        ) by {
        if entries_map(next).contains_key(k) {
            let j = choose|j: int| 0 <= j < next.len() && (#[trigger] next[j]).0 == k;
            assert(entries[j].0 == k);
        }
        if entries_map(entries).insert(key, value).contains_key(k) {
            if k == key {
                assert(next[i].0 == k);
            } else {
                let j = choose|j: int| 0 <= j < entries.len() && (#[trigger] entries[j]).0 == k;
                assert(next[j].0 == k);
            }
        }
    }
    assert forall|k: K| #[trigger] entries_map(next).contains_key(k) implies entries_map(next)[k]
        == entries_map(entries).insert(key, value)[k] by {
        let j = choose|j: int| 0 <= j < next.len() && (#[trigger] next[j]).0 == k;
        if j == i {
            assert(next[i] == (key, value));
        } else {
            assert(entries[j] == next[j]);
            assert(j < i || i < j);
            assert(entries[j].0 != entries[i].0);
        }
    }
    assert(entries_map(next) =~= entries_map(entries).insert(key, value));
}

/// An association map over a vector of entries with distinct keys.
#[derive(Debug)]
pub struct VecMap<K, V> {
    entries: Vec<(K, V)>,
}

impl<K: MapKey, V> View for VecMap<K, V> {
    type V = Map<<K as View>::V, V>;

    closed spec fn view(&self) -> Map<<K as View>::V, V> {
        entries_map(self.order())
    }
}

impl<K: MapKey, V> VecMap<K, V> {
    /// The entries in insertion order, keys by their view.
    pub closed spec fn order(&self) -> Seq<(<K as View>::V, V)> {
        self.entries@.map_values(|entry: (K, V)| (entry.0@, entry.1))
    }

    /// Keys are distinct.
    pub open spec fn wf(&self) -> bool {
        distinct_keys(self.order())
    }

    /// The map holds exactly the entries of its order.
    pub proof fn lemma_view(&self)
        requires
            self.wf(),
        ensures
            self@ == entries_map(self.order()),
            self@.dom().finite(),
            self@.len() == self.order().len(),
            forall|i: int|
                0 <= i < self.order().len() ==> self@.contains_key((#[trigger] self.order()[i]).0)
                    && self@[self.order()[i].0] == self.order()[i].1,
            forall|k: <K as View>::V| #[trigger]
                self@.contains_key(k) ==> exists|i: int|
                    0 <= i < self.order().len() && (#[trigger] self.order()[i]).0 == k,
    {
        lemma_entries_map(self.order());
    }

    /// An empty map.
    pub fn new() -> (map: Self)
        ensures
            map.wf(),
            map@ == Map::<<K as View>::V, V>::empty(),
            map.order().len() == 0,
    {
        let map = VecMap { entries: Vec::new() };
        assert(map.order() =~= Seq::empty());
        map
    }

    /// The number of keys.
    pub fn len(&self) -> (len: usize)
        requires
            self.wf(),
        ensures
            len == self@.len(),
            len == self.order().len(),
            self@.dom().finite(),
    {
        proof {
            self.lemma_view();
        }
        self.entries.len()
    }

    /// The key of the entry at `index`.
    pub fn key_at(&self, index: usize) -> (key: &K)
        requires
            index < self.order().len(),
        ensures
            key@ == self.order()[index as int].0,
    {
        &self.entries[index].0
    }

    /// The value of the entry at `index`.
    pub fn value_at(&self, index: usize) -> (value: &V)
        requires
            index < self.order().len(),
        ensures
            *value == self.order()[index as int].1,
    {
        &self.entries[index].1
    }

    /// The position of `key`, if it is present.
    pub fn position(&self, key: &K) -> (found: Option<usize>)
        requires
            self.wf(),
        ensures
            found is Some == self@.contains_key(key@),
            match found {
                Some(index) => index < self.order().len() && self.order()[index as int].0 == key@
                    && self.order()[index as int].1 == self@[key@],
                None => forall|i: int| 0 <= i < self.order().len() ==> (#[trigger] self.order()[i]).0 != key@,
            },
    {
        proof {
            self.lemma_view();
        }
        let mut index: usize = 0;
        while index < self.entries.len()
            invariant
                index <= self.entries.len(),
                self.wf(),
                self.entries.len() == self.order().len(),
                forall|i: int| 0 <= i < index ==> (#[trigger] self.order()[i]).0 != key@,
            decreases self.entries.len() - index,
        {
            if self.entries[index].0.same_key(key) {
                proof {
                    self.lemma_view();
                    assert(self.order()[index as int].0 == key@);
                }
                return Some(index);
            }
            index = index + 1;
        }
        None
    }

    /// Whether `key` is present.
    pub fn contains_key(&self, key: &K) -> (present: bool)
        requires
            self.wf(),
        ensures
            present == self@.contains_key(key@),
    {
        self.position(key).is_some()
    }

    /// The value stored under `key`.
    pub fn get(&self, key: &K) -> (value: Option<&V>)
        requires
            self.wf(),
        ensures
            match value {
                Some(value) => self@.contains_key(key@) && *value == self@[key@],
                None => !self@.contains_key(key@),
            },
    {
        match self.position(key) {
            Some(index) => Some(&self.entries[index].1),
            None => None,
        }
    }

    /// Removes the entry at `index` and returns it.
    pub fn remove_at(&mut self, index: usize) -> (entry: (K, V))
        requires
            old(self).wf(),
            index < old(self).order().len(),
        ensures
            final(self).wf(),
            (entry.0@, entry.1) == old(self).order()[index as int],
            final(self).order() == old(self).order().remove(index as int),
            final(self)@ == old(self)@.remove(old(self).order()[index as int].0),
    {
        proof {
            lemma_remove_entry(self.order(), index as int);
        }
        let entry = self.entries.remove(index);
        assert(self.order() =~= old(self).order().remove(index as int));
        entry
    }

    /// Stores `value` under `key` and returns the value that it replaces.
    pub fn insert(&mut self, key: K, value: V) -> (previous: Option<V>)
        requires
            old(self).wf(),
        ensures
            final(self).wf(),
            final(self)@ == old(self)@.insert(key@, value),
            previous == (if old(self)@.contains_key(key@) {
                Some(old(self)@[key@])
            } else {
                None
            }),
    {
        let ghost before = self.order();
        match self.position(&key) {
            Some(index) => {
                proof {
                    lemma_update_entry(before, index as int, value);
                }
                let replaced = self.entries.remove(index);
                self.entries.insert(index, (key, value));
                assert(self.order() =~= before.update(index as int, (before[index as int].0, value)));
                Some(replaced.1)
            },
            None => {
                self.entries.push((key, value));
                assert(self.order() =~= before.push((key@, value)));
                assert(self.order().drop_last() =~= before);
                None
            },
        }
    }

    /// Removes `key` and returns its value.
    pub fn remove(&mut self, key: &K) -> (removed: Option<V>)
        requires
            old(self).wf(),
        ensures
            final(self).wf(),
            final(self)@ == old(self)@.remove(key@),
            removed == (if old(self)@.contains_key(key@) {
                Some(old(self)@[key@])
            } else {
                None
            }),
    {
        match self.position(key) {
            Some(index) => {
                let entry = self.remove_at(index);
                Some(entry.1)
            },
            None => {
                assert(self@ =~= old(self)@.remove(key@));
                None
            },
        }
    }
}

} // verus!
