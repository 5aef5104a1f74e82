//! A key-value table keyed by byte strings, exposing `get`, `insert` and
//! `remove`, modelled as a finite map.
use vstd::prelude::*;

verus! {

/// Whether two byte slices hold the same bytes.
pub fn bytes_eq(a: &[u8], b: &[u8]) -> (r: bool)
    ensures
        r == (a@ == b@),
{
    if a.len() != b.len() {
        return false;
    }
    let mut i: usize = 0;
    while i < a.len()
        invariant
            a@.len() == b@.len(),
            i <= a@.len(),
            forall|j: int| 0 <= j < i ==> a@[j] == b@[j],
        decreases a@.len() - i,
    {
        if a[i] != b[i] {
            return false;
        }
        i = i + 1;
    }
    assert(a@ =~= b@);
    true
}

/// A table from byte-string keys to values, with unique keys.
pub struct Table<V> {
    entries: Vec<(Vec<u8>, V)>,
    model: Ghost<Map<Seq<u8>, V>>,
}

impl<V> Table<V> {
    /// The table's contents.
    pub closed spec fn view(&self) -> Map<Seq<u8>, V> {
        self.model@
    }

    /// The entries hold each key once and agree with the model.
    pub closed spec fn wf(&self) -> bool {
        &&& forall|i: int|
            0 <= i < self.entries@.len() ==> #[trigger] self.model@.contains_key(
                self.entries@[i].0@,
            ) && self.model@[self.entries@[i].0@] == self.entries@[i].1
        &&& forall|k: Seq<u8>|
            #[trigger] self.model@.contains_key(k) ==> exists|i: int|
                0 <= i < self.entries@.len() && self.entries@[i].0@ == k
        &&& forall|i: int, j: int|
            0 <= i < j < self.entries@.len() ==> self.entries@[i].0@ != self.entries@[j].0@
    }

    /// An empty table.
    pub fn new() -> (t: Self)
        ensures
            t.wf(),
            t@ == Map::<Seq<u8>, V>::empty(),
    {
        Table { entries: Vec::new(), model: Ghost(Map::empty()) }
    }

    fn find(&self, key: &[u8]) -> (r: Option<usize>)
        requires
            self.wf(),
        ensures
            r is Some ==> r->0 < self.entries@.len() && self.entries@[r->0 as int].0@ == key@,
            r is None ==> !self@.contains_key(key@),
    {
        let mut i: usize = 0;
        while i < self.entries.len()
            invariant
                self.wf(),
                i <= self.entries@.len(),
                forall|j: int| 0 <= j < i ==> self.entries@[j].0@ != key@,
            decreases self.entries@.len() - i,
        {
            if bytes_eq(self.entries[i].0.as_slice(), key) {
                return Some(i);
            }
            i = i + 1;
        }
        None
    }

    /// The value stored under `key`, if any.
    pub fn get(&self, key: &[u8]) -> (r: Option<&V>)
        requires
            self.wf(),
        ensures
            r is Some == self@.contains_key(key@),
            r is Some ==> *r->0 == self@[key@],
    {
        match self.find(key) {
            Some(i) => {
                proof {
                    assert(self.model@.contains_key(self.entries@[i as int].0@));
                }
                Some(&self.entries[i].1)
            },
            None => None,
        }
    }

    /// Stores `value` under `key`, replacing what was there.
    pub fn insert(&mut self, key: Vec<u8>, value: V)
        requires
            old(self).wf(),
        ensures
            final(self).wf(),
            final(self)@ == old(self)@.insert(key@, value),
    {
        let ghost k = key@;
        let ghost new_model = self.model@.insert(k, value);
        match self.find(key.as_slice()) {
            Some(i) => {
                self.entries.set(i, (key, value));
                self.model = Ghost(new_model);
                assert forall|m: Seq<u8>| #[trigger] self.model@.contains_key(m) implies exists|j: int|
                    0 <= j < self.entries@.len() && self.entries@[j].0@ == m by {
                    if m != k {
                        assert(old(self).model@.contains_key(m));
                        let j = choose|j: int|
                            0 <= j < old(self).entries@.len() && old(self).entries@[j].0@ == m;
                        assert(j != i);
                        assert(self.entries@[j].0@ == m);
                    } else {
                        assert(self.entries@[i as int].0@ == m);
                    }
                }
                assert forall|a: int| 0 <= a < self.entries@.len() implies #[trigger] self.model@.contains_key(
                    self.entries@[a].0@,
                ) && self.model@[self.entries@[a].0@] == self.entries@[a].1 by {
                    if a != i {
                        assert(old(self).model@.contains_key(old(self).entries@[a].0@));
                    }
                }
            },
            None => {
                self.entries.push((key, value));
                self.model = Ghost(new_model);
                assert forall|m: Seq<u8>| #[trigger] self.model@.contains_key(m) implies exists|j: int|
                    0 <= j < self.entries@.len() && self.entries@[j].0@ == m by {
                    if m != k {
                        assert(old(self).model@.contains_key(m));
                        let j = choose|j: int|
                            0 <= j < old(self).entries@.len() && old(self).entries@[j].0@ == m;
                        assert(self.entries@[j].0@ == m);
                    } else {
                        assert(self.entries@[old(self).entries@.len() as int].0@ == m);
                    }
                }
                assert forall|a: int| 0 <= a < self.entries@.len() implies #[trigger] self.model@.contains_key(
                    self.entries@[a].0@,
                ) && self.model@[self.entries@[a].0@] == self.entries@[a].1 by {
                    if a < old(self).entries@.len() {
                        assert(old(self).model@.contains_key(old(self).entries@[a].0@));
                    }
                }
                assert forall|a: int, b: int| 0 <= a < b < self.entries@.len() implies self.entries@[a].0@
                    != self.entries@[b].0@ by {
                    if b == old(self).entries@.len() {
                        assert(old(self).model@.contains_key(old(self).entries@[a].0@));
                    }
                }
            },
        }
    }

    /// Removes whatever is stored under `key`; a key that is absent is no error.
    pub fn remove(&mut self, key: &[u8])
        requires
            old(self).wf(),
        ensures
            final(self).wf(),
            final(self)@ == old(self)@.remove(key@),
    {
        match self.find(key) {
            Some(i) => {
                let ghost old_entries = self.entries@;
                let _ = self.entries.remove(i);
                self.model = Ghost(self.model@.remove(key@));
                assert forall|m: Seq<u8>| #[trigger] self.model@.contains_key(m) implies exists|j: int|
                    0 <= j < self.entries@.len() && self.entries@[j].0@ == m by {
                    assert(old(self).model@.contains_key(m));
                    let j = choose|j: int| 0 <= j < old_entries.len() && old_entries[j].0@ == m;
                    if j < i {
                        assert(self.entries@[j].0@ == m);
                    } else {
                        assert(j != i);
                        assert(self.entries@[j - 1].0@ == m);
                    }
                }
                assert forall|a: int| 0 <= a < self.entries@.len() implies #[trigger] self.model@.contains_key(
                    self.entries@[a].0@,
                ) && self.model@[self.entries@[a].0@] == self.entries@[a].1 by {
                    if a < i {
                        assert(self.entries@[a] == old_entries[a]);
                        assert(old(self).model@.contains_key(old_entries[a].0@));
                        assert(old_entries[a].0@ != old_entries[i as int].0@);
                    } else {
                        assert(self.entries@[a] == old_entries[a + 1]);
                        assert(old(self).model@.contains_key(old_entries[a + 1].0@));
                        assert(old_entries[a + 1].0@ != old_entries[i as int].0@);
                    }
                }
            },
            None => {
                assert(self.model@.remove(key@) =~= self.model@);
            },
        }
    }
}

} // verus!
