//! A small map from text to text, kept as a list in which no key stands twice.

use vstd::prelude::*;
use vstd::string::*;
use crate::text::str_eq;

verus! {

/// Whether no two entries of `entries` have the same key.
pub open spec fn distinct_keys(entries: Seq<(String, String)>) -> bool {
    forall|i: int, j: int|
        0 <= i < entries.len() && 0 <= j < entries.len() && i != j ==> (#[trigger] entries[i]).0@
            != (#[trigger] entries[j]).0@
}

/// Whether `entries` holds an entry with key `key`.
pub open spec fn has_key(entries: Seq<(String, String)>, key: Seq<char>) -> bool {
    exists|i: int| 0 <= i < entries.len() && (#[trigger] entries[i]).0@ == key
}

/// An index at which `entries` holds `key`.
pub open spec fn index_of_key(entries: Seq<(String, String)>, key: Seq<char>) -> int {
    choose|i: int| 0 <= i < entries.len() && (#[trigger] entries[i]).0@ == key
}

/// The map that `entries` stands for.
pub open spec fn map_of(entries: Seq<(String, String)>) -> Map<Seq<char>, Seq<char>> {
    Map::new(
        |key: Seq<char>| has_key(entries, key),
        |key: Seq<char>| entries[index_of_key(entries, key)].1@,
    )
}

/// A map from text to text. Each key stands in it once.
#[derive(Debug)]
pub struct Attributes {
    entries: Vec<(String, String)>,
}

impl View for Attributes {
    type V = Map<Seq<char>, Seq<char>>;

    closed spec fn view(&self) -> Map<Seq<char>, Seq<char>> {
        map_of(self.entries@)
    }
}

impl Attributes {
    #[verifier::type_invariant]
    spec fn well_formed(&self) -> bool {
        distinct_keys(self.entries@)
    }

    /// A map without entries.
    pub fn new() -> (out: Self)
        ensures
            out@ == Map::<Seq<char>, Seq<char>>::empty(),
    {
        let out = Attributes { entries: Vec::new() };
        assert(out@ =~= Map::<Seq<char>, Seq<char>>::empty());
        out
    }

    /// The number of keys.
    pub fn len(&self) -> (n: usize)
        ensures
            self@.dom().finite(),
            n == self@.dom().len(),
    {
        proof {
            use_type_invariant(self);
            lemma_map_of_len(self.entries@);
        }
        self.entries.len()
    }

    fn position(&self, key: &str) -> (r: Option<usize>)
        ensures
            match r {
                Some(i) => i < self.entries@.len() && self.entries@[i as int].0@ == key@,
                None => !has_key(self.entries@, key@),
            },
    {
        let mut i: usize = 0;
        while i < self.entries.len()
            invariant
                i <= self.entries.len(),
                forall|k: int| 0 <= k < i ==> (#[trigger] self.entries@[k]).0@ != key@,
            decreases self.entries.len() - i,
        {
            if str_eq(self.entries[i].0.as_str(), key) {
                return Some(i);
            }
            i += 1;
        }
        None
    }

    /// The value under `key`, if there is one.
    pub fn get(&self, key: &str) -> (r: Option<&String>)
        ensures
            match r {
                Some(v) => self@.contains_key(key@) && self@[key@] == v@,
                None => !self@.contains_key(key@),
            },
    {
        proof {
            use_type_invariant(self);
        }
        match self.position(key) {
            Some(i) => {
                proof {
                    let j = index_of_key(self.entries@, key@);
                    assert(self.entries@[i as int].0@ == key@);
                    assert(j == i);
                }
                Some(&self.entries[i].1)
            },
            None => None,
        }
    }

    /// Whether there is a value under `key`.
    pub fn contains_key(&self, key: &str) -> (r: bool)
        ensures
            r == self@.contains_key(key@),
    {
        self.position(key).is_some()
    }

    /// The entries as pairs of key and value, each key once.
    pub fn into_entries(self) -> (pairs: Vec<(String, String)>)
        ensures
            distinct_keys(pairs@),
            map_of(pairs@) == self@,
    {
        proof {
            use_type_invariant(&self);
        }
        self.entries
    }

    /// Puts `value` under `key`, in place of what stood there. The other
    /// entries stay. Returns the value that stood there, if any.
    pub fn insert(&mut self, key: String, value: String) -> (previous: Option<String>)
        ensures
            final(self)@ == old(self)@.insert(key@, value@),
            match previous {
                Some(v) => old(self)@.contains_key(key@) && old(self)@[key@] == v@,
                None => !old(self)@.contains_key(key@),
            },
    {
        proof {
            use_type_invariant(&*self);
        }
        let ghost before = self.entries@;
        let ghost k = key@;
        let ghost v = value@;
        let found = self.position(key.as_str());
        let mut taken = Attributes { entries: Vec::new() };
        std::mem::swap(self, &mut taken);
        let mut entries = taken.entries;
        match found {
            Some(i) => {
                assert(index_of_key(before, k) == i);
                let replaced = entries.remove(i);
                entries.insert(i, (key, value));
                proof {
                    let after = entries@;
                    assert(after =~= before.update(i as int, after[i as int]));
                    assert(after[i as int].0@ == k && after[i as int].1@ == v);
                    assert(distinct_keys(after)) by {
                        assert forall|a: int, b: int|
                            0 <= a < after.len() && 0 <= b < after.len() && a != b implies (
                        #[trigger] after[a]).0@ != (#[trigger] after[b]).0@ by {
                            assert(after[a].0@ == before[a].0@);
                            assert(after[b].0@ == before[b].0@);
                        }
                    }
                    lemma_map_of_update(before, after, i as int, k, v);
                }
                *self = Attributes { entries };
                Some(replaced.1)
            },
            None => {
                entries.push((key, value));
                proof {
                    let after = entries@;
                    assert(after =~= before.push(after[before.len() as int]));
                    assert(distinct_keys(after)) by {
                        assert forall|a: int, b: int|
                            0 <= a < after.len() && 0 <= b < after.len() && a != b implies (
                        #[trigger] after[a]).0@ != (#[trigger] after[b]).0@ by {
                            if a < before.len() {
                                assert(after[a] == before[a]);
                            }
                            if b < before.len() {
                                assert(after[b] == before[b]);
                            }
                        }
                    }
                    lemma_map_of_push(before, after, k, v);
                }
                *self = Attributes { entries };
                None
            },
        }
    }
}

/// A list without a key that stands twice stands for a map with as many keys
/// as the list has entries.
proof fn lemma_map_of_len(entries: Seq<(String, String)>)
    requires
        distinct_keys(entries),
    ensures
        map_of(entries).dom().finite(),
        map_of(entries).dom().len() == entries.len(),
    decreases entries.len(),
{
    if entries.len() == 0 {
        assert(map_of(entries).dom() =~= Set::<Seq<char>>::empty());
    } else {
        let before = entries.drop_last();
        let last = entries.last();
        assert forall|i: int, j: int|
            0 <= i < before.len() && 0 <= j < before.len() && i != j implies (#[trigger] before[i]).0@
            != (#[trigger] before[j]).0@ by {
            assert(before[i] == entries[i]);
            assert(before[j] == entries[j]);
        }
        lemma_map_of_len(before);
        if has_key(before, last.0@) {
            let j = index_of_key(before, last.0@);
            assert(before[j] == entries[j]);
            assert(entries[j].0@ == entries[entries.len() - 1].0@);
        }
        lemma_map_of_push(before, entries, last.0@, last.1@);
        assert(map_of(entries).dom() =~= map_of(before).dom().insert(last.0@));
    }
}

/// Replacing the entry at `i` by one with the same key puts the new value
/// under that key and changes nothing else.
proof fn lemma_map_of_update(
    before: Seq<(String, String)>,
    after: Seq<(String, String)>,
    i: int,
    k: Seq<char>,
    v: Seq<char>,
)
    requires
        0 <= i < before.len(),
        before[i].0@ == k,
        after.len() == before.len(),
        after[i].0@ == k,
        after[i].1@ == v,
        forall|j: int| 0 <= j < before.len() && j != i ==> after[j] == before[j],
        distinct_keys(before),
        distinct_keys(after),
    ensures
        map_of(after) == map_of(before).insert(k, v),
{
    let m1 = map_of(after);
    let m2 = map_of(before).insert(k, v);
    assert forall|key: Seq<char>| m1.contains_key(key) <==> m2.contains_key(key) by {
        if has_key(after, key) {
            let j = index_of_key(after, key);
            assert(before[j].0@ == key);
        }
        if has_key(before, key) {
            let j = index_of_key(before, key);
            assert(after[j].0@ == key);
        }
        if key == k {
            assert(after[i].0@ == key);
        }
    }
    assert forall|key: Seq<char>| m1.contains_key(key) implies m1[key] == m2[key] by {
        let j = index_of_key(after, key);
        if key == k {
            assert(j == i);
        } else {
            assert(j != i);
            assert(before[j].0@ == key);
            assert(index_of_key(before, key) == j);
        }
    }
    assert(m1 =~= m2);
}

/// Adding an entry with a new key puts its value under that key and changes
/// nothing else.
proof fn lemma_map_of_push(
    before: Seq<(String, String)>,
    after: Seq<(String, String)>,
    k: Seq<char>,
    v: Seq<char>,
)
    requires
        after.len() == before.len() + 1,
        after[before.len() as int].0@ == k,
        after[before.len() as int].1@ == v,
        forall|j: int| 0 <= j < before.len() ==> after[j] == before[j],
        !has_key(before, k),
        distinct_keys(after),
    ensures
        map_of(after) == map_of(before).insert(k, v),
{
    let m1 = map_of(after);
    let m2 = map_of(before).insert(k, v);
    let n = before.len() as int;
    assert forall|key: Seq<char>| m1.contains_key(key) <==> m2.contains_key(key) by {
        if has_key(after, key) {
            let j = index_of_key(after, key);
            if j < n {
                assert(before[j].0@ == key);
            }
        }
        if has_key(before, key) {
            let j = index_of_key(before, key);
            assert(after[j].0@ == key);
        }
        if key == k {
            assert(after[n].0@ == key);
        }
    }
    assert forall|key: Seq<char>| m1.contains_key(key) implies m1[key] == m2[key] by {
        let j = index_of_key(after, key);
        if key == k {
            assert(j == n);
        } else {
            assert(j < n);
            assert(before[j].0@ == key);
            assert(index_of_key(before, key) == j);
        }
    }
    assert(m1 =~= m2);
}

} // verus!
