//! A map keyed by strings that keeps the order in which keys were first inserted.
//! It holds tables such as a manifest's file hashes and the HTTP cache index.

use vstd::prelude::*;

use crate::text::chars_eq;
use crate::text::str_chars;

verus! {

/// `pairs` lists the entries of `m`: each key once, with its value.
pub open spec fn pairs_represent<V: View>(pairs: Seq<(String, V)>, m: Map<Seq<char>, V::V>) -> bool {
    &&& forall|i: int, j: int|
        0 <= i < j < pairs.len() ==> (#[trigger] pairs[i]).0@ != (#[trigger] pairs[j]).0@
    &&& forall|i: int|
        0 <= i < pairs.len() ==> m.contains_key((#[trigger] pairs[i]).0@) && m[pairs[i].0@]
            == pairs[i].1@
    &&& forall|k: Seq<char>|
        #[trigger] m.contains_key(k) ==> exists|i: int| 0 <= i < pairs.len() && pairs[i].0@ == k
}

/// The map that a list of entries with distinct keys stands for.
pub open spec fn map_of_pairs<V: View>(pairs: Seq<(String, V)>) -> Map<Seq<char>, V::V> {
    Map::new(
        |k: Seq<char>| exists|i: int| 0 <= i < pairs.len() && pairs[i].0@ == k,
        |k: Seq<char>| pairs[choose|i: int| 0 <= i < pairs.len() && pairs[i].0@ == k].1@,
    )
}

pub open spec fn keys_distinct<V: View>(pairs: Seq<(String, V)>) -> bool {
    forall|i: int, j: int|
        0 <= i < j < pairs.len() ==> (#[trigger] pairs[i]).0@ != (#[trigger] pairs[j]).0@
}

proof fn lemma_map_of_pairs<V: View>(pairs: Seq<(String, V)>)
    requires
        keys_distinct(pairs),
    ensures
        pairs_represent(pairs, map_of_pairs(pairs)),
{
    let m = map_of_pairs(pairs);
    assert forall|i: int| 0 <= i < pairs.len() implies m.contains_key((#[trigger] pairs[i]).0@)
        && m[pairs[i].0@] == pairs[i].1@ by {
        let k = pairs[i].0@;
        assert(exists|j: int| 0 <= j < pairs.len() && pairs[j].0@ == k);
        let c = choose|j: int| 0 <= j < pairs.len() && pairs[j].0@ == k;
        if c != i {
            if c < i {
                assert(pairs[c].0@ != pairs[i].0@);
            } else {
                assert(pairs[i].0@ != pairs[c].0@);
            }
        }
    }
}

/// A list of entries represents at most one map.
proof fn lemma_represent_unique<V: View>(
    pairs: Seq<(String, V)>,
    m1: Map<Seq<char>, V::V>,
    m2: Map<Seq<char>, V::V>,
)
    requires
        pairs_represent(pairs, m1),
        pairs_represent(pairs, m2),
    ensures
        m1 == m2,
{
    assert forall|k: Seq<char>| #[trigger] m1.contains_key(k) implies m2.contains_key(k) && m1[k]
        == m2[k] by {
        let i = choose|i: int| 0 <= i < pairs.len() && pairs[i].0@ == k;
        assert(m2.contains_key(pairs[i].0@));
    }
    assert forall|k: Seq<char>| #[trigger] m2.contains_key(k) implies m1.contains_key(k) by {
        let i = choose|i: int| 0 <= i < pairs.len() && pairs[i].0@ == k;
        assert(m1.contains_key(pairs[i].0@));
    }
    assert(m1 =~= m2);
}

/// The keys of a list of entries.
pub open spec fn keys_of<V: View>(pairs: Seq<(String, V)>) -> Seq<Seq<char>> {
    pairs.map_values(|p: (String, V)| p.0@)
}

proof fn lemma_map_len<V: View>(pairs: Seq<(String, V)>)
    requires
        keys_distinct(pairs),
    ensures
        map_of_pairs(pairs).dom().finite(),
        map_of_pairs(pairs).dom().len() == pairs.len(),
{
    let keys = keys_of(pairs);
    assert(keys.no_duplicates()) by {
        assert forall|i: int, j: int| 0 <= i < keys.len() && 0 <= j < keys.len() && i != j implies keys[i]
            != keys[j] by {
            if i < j {
                assert(pairs[i].0@ != pairs[j].0@);
            } else {
                assert(pairs[j].0@ != pairs[i].0@);
            }
        }
    }
    keys.unique_seq_to_set();
    assert(keys.to_set() =~= map_of_pairs(pairs).dom()) by {
        assert forall|k: Seq<char>| keys.to_set().contains(k) implies map_of_pairs(pairs).dom().contains(k) by {
            let i = choose|i: int| 0 <= i < keys.len() && keys[i] == k;
            assert(pairs[i].0@ == k);
        }
        assert forall|k: Seq<char>| map_of_pairs(pairs).dom().contains(k) implies keys.to_set().contains(k) by {
            let i = choose|i: int| 0 <= i < pairs.len() && pairs[i].0@ == k;
            assert(keys[i] == k);
        }
    }
    vstd::seq_lib::seq_to_set_is_finite(keys);
}

/// A map keyed by strings; each key occurs once.
#[derive(Debug)]
pub struct StrMap<V: View> {
    entries: Vec<(String, V)>,
}

impl<V: View> View for StrMap<V> {
    type V = Map<Seq<char>, V::V>;

    closed spec fn view(&self) -> Map<Seq<char>, V::V> {
        map_of_pairs(self.entries@)
    }
}

impl<V: View> StrMap<V> {
    #[verifier::type_invariant]
    spec fn inv(self) -> bool {
        keys_distinct(self.entries@)
    }

    /// An empty map.
    pub fn new() -> (r: StrMap<V>)
        ensures
            r@ == Map::<Seq<char>, V::V>::empty(),
    {
        let r = StrMap { entries: Vec::new() };
        assert(r@ =~= Map::<Seq<char>, V::V>::empty());
        r
    }

    /// Position of the entry for `key`.
    fn find(&self, key: &Vec<char>) -> (r: Option<usize>)
        ensures
            r matches Some(p) ==> p < self.entries@.len() && self.entries@[p as int].0@ == key@,
            r is None ==> forall|i: int|
                0 <= i < self.entries@.len() ==> self.entries@[i].0@ != key@,
    {
        let mut i: usize = 0;
        while i < self.entries.len()
            invariant
                i <= self.entries@.len(),
                forall|j: int| 0 <= j < i ==> self.entries@[j].0@ != key@,
            decreases self.entries@.len() - i,
        {
            let k = str_chars(self.entries[i].0.as_str());
            if chars_eq(&k, key) {
                return Some(i);
            }
            i = i + 1;
        }
        None
    }

    /// The entries in the order their keys were first inserted.
    pub fn as_pairs(&self) -> (r: &[(String, V)])
        ensures
            pairs_represent(r@, self@),
    {
        proof {
            use_type_invariant(self);
            lemma_map_of_pairs(self.entries@);
        }
        self.entries.as_slice()
    }

    /// The number of entries.
    pub fn len(&self) -> (r: usize)
        ensures
            self@.dom().finite(),
            r == self@.dom().len(),
    {
        proof {
            use_type_invariant(self);
            lemma_map_len(self.entries@);
        }
        self.entries.len()
    }

    /// Removes the entry for `key`; returns its value, if there was one.
    pub fn remove(&mut self, key: &str) -> (r: Option<V>)
        ensures
            final(self)@ == old(self)@.remove(key@),
            r matches Some(v) ==> old(self)@.contains_key(key@) && v@ == old(self)@[key@],
            r is None ==> !old(self)@.contains_key(key@),
    {
        proof {
            use_type_invariant(&*self);
            lemma_map_of_pairs(self.entries@);
        }
        let ghost old_entries = self.entries@;
        let k = str_chars(key);
        match self.find(&k) {
            None => {
                assert(map_of_pairs(old_entries) =~= map_of_pairs(old_entries).remove(key@));
                None
            },
            Some(p) => {
                let mut entries: Vec<(String, V)> = Vec::new();
                std::mem::swap(&mut entries, &mut self.entries);
                let (_, old_value) = entries.remove(p);
                proof {
                    let ne = entries@;
                    let target = map_of_pairs(old_entries).remove(key@);
                    assert(forall|i: int|
                        0 <= i < ne.len() ==> ne[i] == if i < p {
                            old_entries[i]
                        } else {
                            old_entries[i + 1]
                        });
                    assert(keys_distinct(ne)) by {
                        assert forall|i: int, j: int| 0 <= i < j < ne.len() implies (#[trigger] ne[i]).0@
                            != (#[trigger] ne[j]).0@ by {
                            let a = if i < p { i } else { i + 1 };
                            let b = if j < p { j } else { j + 1 };
                            assert(old_entries[a].0@ != old_entries[b].0@);
                        }
                    }
                    lemma_map_of_pairs(ne);
                    assert(pairs_represent(ne, target)) by {
                        assert forall|i: int| 0 <= i < ne.len() implies target.contains_key(
                            (#[trigger] ne[i]).0@,
                        ) && target[ne[i].0@] == ne[i].1@ by {
                            let a = if i < p { i } else { i + 1 };
                            assert(ne[i] == old_entries[a]);
                            if a < p {
                                assert(old_entries[a].0@ != old_entries[p as int].0@);
                            } else {
                                assert(old_entries[p as int].0@ != old_entries[a].0@);
                            }
                        }
                        assert forall|k2: Seq<char>| #[trigger] target.contains_key(k2) implies exists|
                            i: int,
                        | 0 <= i < ne.len() && ne[i].0@ == k2 by {
                            let a = choose|a: int|
                                0 <= a < old_entries.len() && old_entries[a].0@ == k2;
                            assert(a != p);
                            let i = if a < p { a } else { a - 1 };
                            assert(ne[i].0@ == k2);
                        }
                    }
                    lemma_represent_unique(ne, map_of_pairs(ne), target);
                }
                self.entries = entries;
                Some(old_value)
            },
        }
    }

    /// Whether the map has no entry.
    pub fn is_empty(&self) -> (r: bool)
        ensures
            r == (self@ == Map::<Seq<char>, V::V>::empty()),
    {
        proof {
            use_type_invariant(self);
            lemma_map_of_pairs(self.entries@);
            if self.entries@.len() == 0 {
                assert(self@ =~= Map::<Seq<char>, V::V>::empty());
            } else {
                assert(self@.contains_key(self.entries@[0].0@));
            }
        }
        self.entries.len() == 0
    }

    /// Whether `key` has an entry.
    pub fn contains_key(&self, key: &str) -> (r: bool)
        ensures
            r == self@.contains_key(key@),
    {
        proof {
            use_type_invariant(self);
            lemma_map_of_pairs(self.entries@);
        }
        let k = str_chars(key);
        self.find(&k).is_some()
    }

    /// The value for `key`, if there is one.
    pub fn get(&self, key: &str) -> (r: Option<&V>)
        ensures
            r matches Some(v) ==> self@.contains_key(key@) && v@ == self@[key@],
            r is None ==> !self@.contains_key(key@),
    {
        proof {
            use_type_invariant(self);
            lemma_map_of_pairs(self.entries@);
        }
        let k = str_chars(key);
        match self.find(&k) {
            Some(p) => Some(&self.entries[p].1),
            None => None,
        }
    }

    /// Sets the value for `key`; returns the value it replaced, if any.
    pub fn insert(&mut self, key: String, value: V) -> (r: Option<V>)
        ensures
            final(self)@ == old(self)@.insert(key@, value@),
            r matches Some(v) ==> old(self)@.contains_key(key@) && v@ == old(self)@[key@],
            r is None ==> !old(self)@.contains_key(key@),
    {
        proof {
            use_type_invariant(&*self);
            lemma_map_of_pairs(self.entries@);
        }
        let ghost old_entries = self.entries@;
        let k = str_chars(key.as_str());
        match self.find(&k) {
            Some(p) => {
                let mut entries: Vec<(String, V)> = Vec::new();
                std::mem::swap(&mut entries, &mut self.entries);
                let (_, old_value) = entries.remove(p);
                entries.insert(p, (key, value));
                assert(entries@ =~= old_entries.update(p as int, entries@[p as int]));
                proof {
                    let ne = entries@;
                    let om = map_of_pairs(old_entries);
                    let target = om.insert(key@, value@);
                    assert(keys_distinct(ne)) by {
                        assert forall|i: int, j: int| 0 <= i < j < ne.len() implies (#[trigger] ne[i]).0@
                            != (#[trigger] ne[j]).0@ by {
                            assert(old_entries[i].0@ != old_entries[j].0@);
                        }
                    }
                    lemma_map_of_pairs(ne);
                    assert(pairs_represent(ne, target)) by {
                        assert forall|i: int| 0 <= i < ne.len() implies target.contains_key(
                            (#[trigger] ne[i]).0@,
                        ) && target[ne[i].0@] == ne[i].1@ by {
                            if i != p {
                                assert(old_entries[i] == ne[i]);
                                if i < p {
                                    assert(old_entries[i].0@ != old_entries[p as int].0@);
                                } else {
                                    assert(old_entries[p as int].0@ != old_entries[i].0@);
                                }
                            }
                        }
                        assert forall|k2: Seq<char>| #[trigger] target.contains_key(k2) implies exists|
                            i: int,
                        | 0 <= i < ne.len() && ne[i].0@ == k2 by {
                            if k2 == key@ {
                                assert(ne[p as int].0@ == k2);
                            } else {
                                let i = choose|i: int|
                                    0 <= i < old_entries.len() && old_entries[i].0@ == k2;
                                assert(ne[i].0@ == k2);
                            }
                        }
                    }
                    lemma_represent_unique(ne, map_of_pairs(ne), target);
                }
                self.entries = entries;
                Some(old_value)
            },
            None => {
                let mut entries: Vec<(String, V)> = Vec::new();
                std::mem::swap(&mut entries, &mut self.entries);
                entries.push((key, value));
                proof {
                    let ne = entries@;
                    let om = map_of_pairs(old_entries);
                    let target = om.insert(key@, value@);
                    assert(keys_distinct(ne)) by {
                        assert forall|i: int, j: int| 0 <= i < j < ne.len() implies (#[trigger] ne[i]).0@
                            != (#[trigger] ne[j]).0@ by {
                            if j < old_entries.len() {
                                assert(old_entries[i].0@ != old_entries[j].0@);
                            }
                        }
                    }
                    lemma_map_of_pairs(ne);
                    assert(pairs_represent(ne, target)) by {
                        assert forall|i: int| 0 <= i < ne.len() implies target.contains_key(
                            (#[trigger] ne[i]).0@,
                        ) && target[ne[i].0@] == ne[i].1@ by {
                            if i < old_entries.len() {
                                assert(old_entries[i] == ne[i]);
                            }
                        }
                        assert forall|k2: Seq<char>| #[trigger] target.contains_key(k2) implies exists|
                            i: int,
                        | 0 <= i < ne.len() && ne[i].0@ == k2 by {
                            if k2 == key@ {
                                assert(ne[old_entries.len() as int].0@ == k2);
                            } else {
                                let i = choose|i: int|
                                    0 <= i < old_entries.len() && old_entries[i].0@ == k2;
                                assert(ne[i].0@ == k2);
                            }
                        }
                    }
                    lemma_represent_unique(ne, map_of_pairs(ne), target);
                }
                self.entries = entries;
                None
            },
        }
    }

    /// Removes every entry.
    pub fn clear(&mut self)
        ensures
            final(self)@ == Map::<Seq<char>, V::V>::empty(),
    {
        self.entries = Vec::new();
        assert(map_of_pairs(self.entries@) =~= Map::<Seq<char>, V::V>::empty());
    }

}

impl StrMap<String> {
    /// Whether the two maps hold the same entries.
    pub fn same_as(&self, other: &StrMap<String>) -> (r: bool)
        ensures
            r == (self@ == other@),
    {
        proof {
            use_type_invariant(self);
            use_type_invariant(other);
            lemma_map_of_pairs(self.entries@);
            lemma_map_of_pairs(other.entries@);
        }
        let mut i: usize = 0;
        while i < self.entries.len()
            invariant
                i <= self.entries@.len(),
                pairs_represent(self.entries@, self@),
                pairs_represent(other.entries@, other@),
                forall|j: int|
                    0 <= j < i ==> other@.contains_key((#[trigger] self.entries@[j]).0@)
                        && other@[self.entries@[j].0@] == self.entries@[j].1@,
            decreases self.entries@.len() - i,
        {
            match other.get(self.entries[i].0.as_str()) {
                Some(v) => {
                    if !(*v == self.entries[i].1) {
                        return false;
                    }
                },
                None => {
                    return false;
                },
            }
            i = i + 1;
        }
        let mut j: usize = 0;
        while j < other.entries.len()
            invariant
                j <= other.entries@.len(),
                pairs_represent(self.entries@, self@),
                pairs_represent(other.entries@, other@),
                forall|q: int| 0 <= q < j ==> self@.contains_key((#[trigger] other.entries@[q]).0@),
            decreases other.entries@.len() - j,
        {
            if !self.contains_key(other.entries[j].0.as_str()) {
                return false;
            }
            j = j + 1;
        }
        proof {
            assert forall|k: Seq<char>| #[trigger] self@.contains_key(k) implies other@.contains_key(
                k,
            ) && other@[k] == self@[k] by {
                let q = choose|q: int| 0 <= q < self.entries@.len() && self.entries@[q].0@ == k;
                assert(other@.contains_key(self.entries@[q].0@));
            }
            assert forall|k: Seq<char>| #[trigger] other@.contains_key(k) implies self@.contains_key(
                k,
            ) by {
                let q = choose|q: int| 0 <= q < other.entries@.len() && other.entries@[q].0@ == k;
                assert(self@.contains_key(other.entries@[q].0@));
            }
            assert(self@ =~= other@);
        }
        true
    }
}

impl Clone for StrMap<String> {
    fn clone(&self) -> (r: StrMap<String>)
        ensures
            r@ == self@,
    {
        proof {
            use_type_invariant(self);
        }
        let mut out: Vec<(String, String)> = Vec::new();
        let mut i: usize = 0;
        while i < self.entries.len()
            invariant
                i <= self.entries@.len(),
                keys_distinct(self.entries@),
                out@ == self.entries@.take(i as int),
            decreases self.entries@.len() - i,
        {
            let k = self.entries[i].0.clone();
            let v = self.entries[i].1.clone();
            out.push((k, v));
            assert(self.entries@.take(i as int + 1) == self.entries@.take(i as int).push(
                self.entries@[i as int],
            ));
            i = i + 1;
        }
        assert(self.entries@.take(self.entries@.len() as int) == self.entries@);
        StrMap { entries: out }
    }
}

} // verus!
