//! A map keyed by strings, kept as a vector of distinct keys.

use vstd::prelude::*;

verus! {

/// Entries with pairwise distinct keys; `view` is the map they represent.
pub struct StringMap<V> {
    entries: Vec<(String, V)>,
    contents: Ghost<Map<Seq<char>, V>>,
}

impl<V> View for StringMap<V> {
    type V = Map<Seq<char>, V>;

    closed spec fn view(&self) -> Map<Seq<char>, V> {
        self.contents@
    }
}

impl<V> StringMap<V> {
    /// The representation invariant: distinct keys, and the entries are exactly
    /// the pairs of the map.
    pub closed spec fn wf(&self) -> bool {
        &&& forall|i: int, j: int|
            0 <= i < j < self.entries@.len() ==> (#[trigger] self.entries@[i]).0@ != (
            #[trigger] self.entries@[j]).0@
        &&& forall|i: int|
            0 <= i < self.entries@.len() ==> self.contents@.contains_key((#[trigger] self.entries@[i]).0@)
                && self.contents@[self.entries@[i].0@] == self.entries@[i].1
        &&& forall|k: Seq<char>|
            self.contents@.contains_key(k) ==> exists|i: int|
                0 <= i < self.entries@.len() && (#[trigger] self.entries@[i]).0@ == k
        &&& self.contents@.dom().finite()
        &&& self.contents@.dom().len() == self.entries@.len()
    }

    /// The keys in insertion order.
    pub closed spec fn key_seq(&self) -> Seq<Seq<char>> {
        self.entries@.map_values(|e: (String, V)| e.0@)
    }

    pub fn new() -> (m: Self)
        ensures
            m.wf(),
            m@ == Map::<Seq<char>, V>::empty(),
            m.key_seq() == Seq::<Seq<char>>::empty(),
            m.value_seq() == Seq::<V>::empty(),
    {
        let m = StringMap { entries: Vec::new(), contents: Ghost(Map::empty()) };
        proof {
            assert(m.key_seq() =~= Seq::<Seq<char>>::empty());
            assert(m.value_seq() =~= Seq::<V>::empty());
        }
        m
    }

    pub fn len(&self) -> (n: usize)
        requires
            self.wf(),
        ensures
            n == self@.len(),
    {
        self.entries.len()
    }

    /// The position of `key` in `key_seq`, if present.
    pub fn find(&self, key: &str) -> (r: Option<usize>)
        requires
            self.wf(),
        ensures
            r is None ==> !self@.contains_key(key@),
            r matches Some(i) ==> i < self@.len()
                && self@.contains_key(key@) && self.key_seq()[i as int] == key@
                && self.value_seq()[i as int] == self@[key@],
    {
        let n = self.entries.len();
        for i in 0..n
            invariant
                n == self.entries@.len(),
                self.wf(),
                forall|j: int| 0 <= j < i ==> (#[trigger] self.entries@[j]).0@ != key@,
        {
            if string_eq(&self.entries[i].0, key) {
                return Some(i);
            }
        }
        proof {
            if self@.contains_key(key@) {
                let i = choose|i: int| 0 <= i < self.entries@.len() && (#[trigger] self.entries@[i]).0@ == key@;
                assert(self.entries@[i].0@ != key@);
            }
        }
        None
    }

    pub fn contains_key(&self, key: &str) -> (b: bool)
        requires
            self.wf(),
        ensures
            b == self@.contains_key(key@),
    {
        self.find(key).is_some()
    }

    pub fn get(&self, key: &str) -> (r: Option<&V>)
        requires
            self.wf(),
        ensures
            r is None <==> !self@.contains_key(key@),
            r matches Some(v) ==> *v == self@[key@],
    {
        match self.find(key) {
            Some(i) => Some(&self.entries[i].1),
            None => None,
        }
    }

    /// Inserts or replaces the value of `key`.
    pub fn insert(&mut self, key: String, value: V)
        requires
            old(self).wf(),
        ensures
            final(self).wf(),
            final(self)@ == old(self)@.insert(key@, value),
            !old(self)@.contains_key(key@) ==> final(self).key_seq() == old(self).key_seq().push(key@)
                && final(self).value_seq() == old(self).value_seq().push(value),
    {
        let ghost k = key@;
        match self.find(key.as_str()) {
            Some(i) => {
                let ghost old_entries = self.entries@;
                self.entries.set(i, (key, value));
                self.contents = Ghost(self.contents@.insert(k, value));
                proof {
                    assert(self.contents@.dom() =~= old(self).contents@.dom());
                    assert forall|k2: Seq<char>| self.contents@.contains_key(k2) implies exists|j: int|
                        0 <= j < self.entries@.len() && (#[trigger] self.entries@[j]).0@ == k2 by {
                        if k2 != k {
                            let j = choose|j: int| 0 <= j < old_entries.len() && (#[trigger] old_entries[j]).0@ == k2;
                            assert(self.entries@[j] == old_entries[j]);
                        } else {
                            assert(self.entries@[i as int].0@ == k2);
                        }
                    }
                }
            },
            None => {
                self.entries.push((key, value));
                self.contents = Ghost(self.contents@.insert(k, value));
                proof {
                    assert(self.key_seq() =~= old(self).key_seq().push(k));
                    assert(self.value_seq() =~= old(self).value_seq().push(value));
                    assert forall|k2: Seq<char>| self.contents@.contains_key(k2) implies exists|j: int|
                        0 <= j < self.entries@.len() && (#[trigger] self.entries@[j]).0@ == k2 by {
                        if k2 != k {
                            let j = choose|j: int| 0 <= j < old(self).entries@.len()
                                && (#[trigger] old(self).entries@[j]).0@ == k2;
                            assert(self.entries@[j] == old(self).entries@[j]);
                        } else {
                            assert(self.entries@[self.entries@.len() - 1].0@ == k2);
                        }
                    }
                }
            },
        }
    }

    /// Inserts `key` only when it is absent; returns whether it was inserted.
    pub fn insert_if_absent(&mut self, key: String, value: V) -> (inserted: bool)
        requires
            old(self).wf(),
        ensures
            final(self).wf(),
            inserted == !old(self)@.contains_key(key@),
            final(self)@ == if inserted { old(self)@.insert(key@, value) } else { old(self)@ },
    {
        if self.contains_key(key.as_str()) {
            false
        } else {
            self.insert(key, value);
            true
        }
    }

    /// Removes `key` if present and returns its value.
    pub fn take(&mut self, key: &str) -> (r: Option<V>)
        requires
            old(self).wf(),
        ensures
            final(self).wf(),
            final(self)@ == old(self)@.remove(key@),
            r is Some <==> old(self)@.contains_key(key@),
            r matches Some(v) ==> v == old(self)@[key@],
    {
        match self.find(key) {
            Some(i) => {
                let ghost old_entries = self.entries@;
                let (_, value) = self.entries.remove(i);
                self.contents = Ghost(self.contents@.remove(key@));
                proof {
                    assert forall|a: int, b: int| 0 <= a < b < self.entries@.len() implies
                        (#[trigger] self.entries@[a]).0@ != (#[trigger] self.entries@[b]).0@ by {
                        let oa = if a < i { a } else { a + 1 };
                        let ob = if b < i { b } else { b + 1 };
                        assert(self.entries@[a] == old_entries[oa]);
                        assert(self.entries@[b] == old_entries[ob]);
                    }
                    assert forall|a: int| 0 <= a < self.entries@.len() implies
                        self.contents@.contains_key((#[trigger] self.entries@[a]).0@)
                        && self.contents@[self.entries@[a].0@] == self.entries@[a].1 by {
                        let oa = if a < i { a } else { a + 1 };
                        assert(self.entries@[a] == old_entries[oa]);
                        assert(old_entries[oa].0@ != old_entries[i as int].0@);
                    }
                    assert forall|k2: Seq<char>| self.contents@.contains_key(k2) implies exists|j: int|
                        0 <= j < self.entries@.len() && (#[trigger] self.entries@[j]).0@ == k2 by {
                        let j = choose|j: int| 0 <= j < old_entries.len() && (#[trigger] old_entries[j]).0@ == k2;
                        if j < i {
                            assert(self.entries@[j] == old_entries[j]);
                        } else {
                            assert(j != i);
                            assert(self.entries@[j - 1] == old_entries[j]);
                        }
                    }
                }
                Some(value)
            },
            None => {
                proof {
                    assert(self.contents@.remove(key@) =~= self.contents@);
                }
                None
            },
        }
    }

    /// Removes `key` if present.
    pub fn remove(&mut self, key: &str)
        requires
            old(self).wf(),
        ensures
            final(self).wf(),
            final(self)@ == old(self)@.remove(key@),
    {
        let _ = self.take(key);
    }

    /// The values in the order of `key_seq`.
    pub closed spec fn value_seq(&self) -> Seq<V> {
        self.entries@.map_values(|e: (String, V)| e.1)
    }

    /// The keys and values enumerate the map, each key once.
    pub proof fn lemma_enumerates(&self)
        requires
            self.wf(),
        ensures
            self.key_seq().len() == self@.len(),
            self.value_seq().len() == self@.len(),
            self.key_seq().no_duplicates(),
            forall|i: int| 0 <= i < self@.len() ==> #[trigger] self@.contains_key(self.key_seq()[i])
                && self@[self.key_seq()[i]] == self.value_seq()[i],
            forall|k: Seq<char>| #[trigger] self@.contains_key(k) ==> exists|i: int|
                0 <= i < self@.len() && self.key_seq()[i] == k,
    {
        assert forall|k: Seq<char>| #[trigger] self@.contains_key(k) implies exists|i: int|
            0 <= i < self@.len() && self.key_seq()[i] == k by {
            let i = choose|i: int| 0 <= i < self.entries@.len() && (#[trigger] self.entries@[i]).0@ == k;
            assert(self.key_seq()[i] == k);
        }
        assert forall|i: int| 0 <= i < self@.len() implies #[trigger] self@.contains_key(self.key_seq()[i])
            && self@[self.key_seq()[i]] == self.value_seq()[i] by {
            assert(self.key_seq()[i] == self.entries@[i].0@);
        }
        assert forall|i: int, j: int| 0 <= i < self.key_seq().len() && 0 <= j < self.key_seq().len() && i != j
            implies self.key_seq()[i] != self.key_seq()[j] by {
            if i < j {
                assert(self.key_seq()[i] == self.entries@[i].0@);
                assert(self.key_seq()[j] == self.entries@[j].0@);
            } else {
                assert(self.key_seq()[i] == self.entries@[i].0@);
                assert(self.key_seq()[j] == self.entries@[j].0@);
            }
        }
    }

    /// Replaces the value at position `i`, keeping its key and position; returns
    /// the previous value.
    pub fn swap_value(&mut self, i: usize, value: V) -> (prev: V)
        requires
            old(self).wf(),
            i < old(self)@.len(),
        ensures
            final(self).wf(),
            prev == old(self).value_seq()[i as int],
            final(self).key_seq() == old(self).key_seq(),
            final(self).value_seq() == old(self).value_seq().update(i as int, value),
            final(self)@ == old(self)@.insert(old(self).key_seq()[i as int], value),
            final(self)@.dom() == old(self)@.dom(),
            old(self)@.contains_key(old(self).key_seq()[i as int]),
    {
        proof {
            self.lemma_enumerates();
        }
        let ghost old_entries = self.entries@;
        let ghost k = self.entries@[i as int].0@;
        let (key, prev) = self.entries.remove(i);
        self.entries.insert(i, (key, value));
        self.contents = Ghost(self.contents@.insert(k, value));
        proof {
            assert(self.entries@ =~= old_entries.update(i as int, self.entries@[i as int]));
            assert(self.key_seq() =~= old(self).key_seq());
            assert(self.value_seq() =~= old(self).value_seq().update(i as int, value));
            assert(self.contents@.dom() =~= old(self).contents@.dom());
            assert forall|k2: Seq<char>| self.contents@.contains_key(k2) implies exists|j: int|
                0 <= j < self.entries@.len() && (#[trigger] self.entries@[j]).0@ == k2 by {
                let j = choose|j: int| 0 <= j < old_entries.len() && (#[trigger] old_entries[j]).0@ == k2;
                assert(self.entries@[j].0@ == old_entries[j].0@);
            }
            assert forall|a: int| 0 <= a < self.entries@.len() implies
                self.contents@.contains_key((#[trigger] self.entries@[a]).0@)
                && self.contents@[self.entries@[a].0@] == self.entries@[a].1 by {
                if a != i {
                    assert(old_entries[a].0@ != old_entries[i as int].0@);
                }
            }
            assert forall|a: int, b: int| 0 <= a < b < self.entries@.len() implies
                (#[trigger] self.entries@[a]).0@ != (#[trigger] self.entries@[b]).0@ by {
                assert(self.entries@[a].0@ == old_entries[a].0@);
                assert(self.entries@[b].0@ == old_entries[b].0@);
            }
        }
        prev
    }

    /// The key at position `i` of `key_seq`.
    pub fn key_at(&self, i: usize) -> (k: &String)
        requires
            self.wf(),
            i < self@.len(),
        ensures
            k@ == self.key_seq()[i as int],
    {
        &self.entries[i].0
    }

    /// The value at position `i` of `value_seq`.
    pub fn value_at(&self, i: usize) -> (v: &V)
        requires
            self.wf(),
            i < self@.len(),
        ensures
            *v == self.value_seq()[i as int],
    {
        &self.entries[i].1
    }

    /// Removes every entry.
    pub fn clear(&mut self)
        requires
            old(self).wf(),
        ensures
            final(self).wf(),
            final(self)@ == Map::<Seq<char>, V>::empty(),
    {
        self.entries.clear();
        self.contents = Ghost(Map::empty());
        proof {
            assert(self.contents@.dom() =~= Set::<Seq<char>>::empty());
        }
    }
}

/// Equality of a string and a string slice, by their characters.
pub fn string_eq(a: &String, b: &str) -> (r: bool)
    ensures
        r == (a@ == b@),
{
    let other = String::from_str(b);
    *a == other
}

} // verus!
