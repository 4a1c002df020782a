//! A string-keyed storage map, the backing store of every pallet.
use vstd::prelude::*;

verus! {

/// A map from string keys to values, kept as a list of entries whose keys
/// are pairwise distinct. A missing key has no entry at all.
pub struct StorageMap<V> {
    entries: Vec<(String, V)>,
    contents: Ghost<Map<Seq<char>, V>>,
}

impl<V> View for StorageMap<V> {
    type V = Map<Seq<char>, V>;

    closed spec fn view(&self) -> Map<Seq<char>, V> {
        self.contents@
    }
}

impl<V> StorageMap<V> {
    /// The entries hold distinct keys and agree exactly with the map they stand for.
    pub closed spec fn wf(&self) -> bool {
        &&& forall|i: int, j: int|
            0 <= i < j < self.entries@.len() ==> #[trigger] self.entries@[i].0@
                != #[trigger] self.entries@[j].0@
        &&& forall|i: int|
            0 <= i < self.entries@.len() ==> {
                let e = #[trigger] self.entries@[i];
                &&& self.contents@.contains_key(e.0@)
                &&& self.contents@[e.0@] == e.1
            }
        &&& forall|k: Seq<char>|
            #[trigger] self.contents@.contains_key(k) ==> exists|i: int|
                0 <= i < self.entries@.len() && #[trigger] self.entries@[i].0@ == k
    }

    /// An empty map.
    pub fn new() -> (m: Self)
        ensures
            m.wf(),
            m@ == Map::<Seq<char>, V>::empty(),
    {
        StorageMap { entries: Vec::new(), contents: Ghost(Map::empty()) }
    }

    /// The position of the entry for `key`, if there is one.
    fn position(&self, key: &String) -> (r: Option<usize>)
        requires
            self.wf(),
        ensures
            match r {
                Some(i) => i < self.entries@.len() && self.entries@[i as int].0@ == key@,
                None => !self@.contains_key(key@),
            },
    {
        let mut i: usize = 0;
        while i < self.entries.len()
            invariant
                self.wf(),
                i <= self.entries@.len(),
                forall|j: int| 0 <= j < i ==> #[trigger] self.entries@[j].0@ != key@,
            decreases self.entries@.len() - i,
        {
            if self.entries[i].0 == *key {
                return Some(i);
            }
            i = i + 1;
        }
        None
    }

    /// The value stored under `key`, if any.
    pub fn get(&self, key: &String) -> (r: Option<&V>)
        requires
            self.wf(),
        ensures
            r == (if self@.contains_key(key@) {
                Some(&self@[key@])
            } else {
                None
            }),
    {
        match self.position(key) {
            Some(i) => Some(&self.entries[i].1),
            None => None,
        }
    }

    /// Stores `value` under `key`, replacing any earlier value.
    pub fn insert(&mut self, key: String, value: V)
        requires
            old(self).wf(),
        ensures
            final(self).wf(),
            final(self)@ == old(self)@.insert(key@, value),
    {
        let ghost k = key@;
        let ghost updated = self.contents@.insert(k, value);
        match self.position(&key) {
            Some(i) => {
                self.entries.set(i, (key, value));
                self.contents = Ghost(updated);
                proof {
                    self.lemma_covers_after_update(old(self).entries@, updated, i as int);
                }
            },
            None => {
                self.entries.push((key, value));
                self.contents = Ghost(updated);
                proof {
                    self.lemma_covers_after_update(
                        old(self).entries@,
                        updated,
                        old(self).entries@.len() as int,
                    );
                }
            },
        }
    }

    /// After the entry at `at` has been overwritten or appended, each key of `updated`
    /// (the key written there, or the key of an entry left in place) has an entry.
    proof fn lemma_covers_after_update(
        &self,
        before: Seq<(String, V)>,
        updated: Map<Seq<char>, V>,
        at: int,
    )
        requires
            0 <= at < self.entries@.len(),
            at <= before.len(),
            self.entries@.len() == before.len() || self.entries@.len() == before.len() + 1,
            forall|j: int| 0 <= j < before.len() && j != at ==> self.entries@[j] == before[j],
            forall|k2: Seq<char>|
                #[trigger] updated.contains_key(k2) ==> k2 == self.entries@[at].0@ || exists|
                    j: int,
                | 0 <= j < before.len() && #[trigger] before[j].0@ == k2 && j != at,
        ensures
            forall|k2: Seq<char>| #[trigger]
                updated.contains_key(k2) ==> exists|j: int|
                    0 <= j < self.entries@.len() && #[trigger] self.entries@[j].0@ == k2,
    {
        assert forall|k2: Seq<char>| #[trigger] updated.contains_key(k2) implies exists|j: int|
            0 <= j < self.entries@.len() && #[trigger] self.entries@[j].0@ == k2 by {
            if k2 == self.entries@[at].0@ {
                assert(self.entries@[at].0@ == k2);
            } else {
                let j = choose|j: int| 0 <= j < before.len() && #[trigger] before[j].0@ == k2 && j != at;
                assert(self.entries@[j].0@ == k2);
            }
        }
    }

    /// Removes the entry for `key`, if there is one.
    pub fn remove(&mut self, key: &String)
        requires
            old(self).wf(),
        ensures
            final(self).wf(),
            final(self)@ == old(self)@.remove(key@),
    {
        let ghost updated = self.contents@.remove(key@);
        match self.position(key) {
            Some(i) => {
                let _ = self.entries.remove(i);
                self.contents = Ghost(updated);
                assert forall|k2: Seq<char>| #[trigger] updated.contains_key(k2) implies exists|
                    j: int,
                | 0 <= j < self.entries@.len() && #[trigger] self.entries@[j].0@ == k2 by {
                    let j = choose|j: int|
                        0 <= j < old(self).entries@.len() && #[trigger] old(self).entries@[j].0@
                            == k2;
                    if j < i {
                        assert(self.entries@[j].0@ == k2);
                    } else {
                        assert(self.entries@[j - 1].0@ == k2);
                    }
                }
            },
            None => {
                assert(updated =~= self.contents@);
            },
        }
    }
}

} // verus!
