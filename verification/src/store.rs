//! A string-keyed in-memory store with insert-or-overwrite and lookup.
//!
//! Entries are held append-only in insertion order; a later entry for a key
//! shadows every earlier one, so the store denotes the map in which each key
//! is bound to the value of its most recent insertion. Shadowed entries stay
//! allocated until the store is dropped, which is exactly the lifecycle the
//! registry wants: handles, once attached, live until process exit.

use vstd::prelude::*;
use vstd::string::StringExecFns;

verus! {

/// The map denoted by a sequence of key–value entries, where a later entry
/// for a key overrides every earlier one.
pub open spec fn assoc_map<V>(entries: Seq<(Seq<char>, V)>) -> Map<Seq<char>, V>
    decreases entries.len(),
{
    if entries.len() == 0 {
        Map::empty()
    } else {
        assoc_map(entries.drop_last()).insert(entries.last().0, entries.last().1)
    }
}

/// A key bound by no entry is absent from the denoted map.
pub proof fn lemma_assoc_map_absent<V>(s: Seq<(Seq<char>, V)>, k: Seq<char>)
    requires
        forall|j: int| 0 <= j < s.len() ==> (#[trigger] s[j]).0 != k,
    ensures
        !assoc_map(s).contains_key(k),
    decreases s.len(),
{
    if s.len() > 0 {
        assert forall|j: int| 0 <= j < s.drop_last().len() implies (#[trigger] s.drop_last()[j]).0
            != k by {
            assert(s.drop_last()[j] == s[j]);
        }
        lemma_assoc_map_absent(s.drop_last(), k);
    }
}

/// The last entry binding a key decides its value in the denoted map.
pub proof fn lemma_assoc_map_found<V>(s: Seq<(Seq<char>, V)>, k: Seq<char>, i: int)
    requires
        0 <= i < s.len(),
        s[i].0 == k,
        forall|j: int| i < j < s.len() ==> (#[trigger] s[j]).0 != k,
    ensures
        assoc_map(s).contains_key(k),
        assoc_map(s)[k] == s[i].1,
    decreases s.len(),
{
    if i < s.len() - 1 {
        assert(s.last().0 != k);
        assert forall|j: int| i < j < s.drop_last().len() implies (#[trigger] s.drop_last()[j]).0
            != k by {
            assert(s.drop_last()[j] == s[j]);
        }
        assert(s.drop_last()[i] == s[i]);
        lemma_assoc_map_found(s.drop_last(), k, i);
    }
}

/// An in-memory store from string keys to values of type `V`, viewed as the
/// map from each key to its most recently inserted value.
pub struct KeyedStore<V> {
    entries: Vec<(String, V)>,
}

impl<V> KeyedStore<V> {
    /// The stored entries as key-view/value pairs, oldest first.
    pub closed spec fn entry_seq(self) -> Seq<(Seq<char>, V)> {
        self.entries@.map_values(|p: (String, V)| (p.0@, p.1))
    }

    /// Creates an empty store.
    pub fn new() -> (r: Self)
        ensures
            r@ == Map::<Seq<char>, V>::empty(),
    {
        let r = KeyedStore { entries: Vec::new() };
        proof {
            assert(r.entry_seq() =~= Seq::<(Seq<char>, V)>::empty());
        }
        r
    }

    /// Inserts or overwrites the value bound to `key`.
    pub fn insert(&mut self, key: &str, value: V)
        ensures
            final(self)@ == old(self)@.insert(key@, value),
    {
        let owned: String = String::from_str(key);
        self.entries.push((owned, value));
        proof {
            assert(self.entry_seq() =~= old(self).entry_seq().push((key@, value)));
            assert(self.entry_seq().drop_last() =~= old(self).entry_seq());
        }
    }

    /// Looks the value for `key` up; never blocks on anything but memory.
    pub fn get(&self, key: &str) -> (r: Option<&V>)
        ensures
            match r {
                Some(v) => self@.contains_key(key@) && *v == self@[key@],
                None => !self@.contains_key(key@),
            },
    {
        let target: String = String::from_str(key);
        let n: usize = self.entries.len();
        let mut i: usize = n;
        while i > 0
            invariant
                i <= n,
                n == self.entries.len(),
                target@ == key@,
                forall|j: int| i <= j < n ==> (#[trigger] self.entry_seq()[j]).0 != key@,
            decreases i,
        {
            i = i - 1;
            if self.entries[i].0 == target {
                proof {
                    assert(self.entry_seq()[i as int].0 == key@);
                    lemma_assoc_map_found(self.entry_seq(), key@, i as int);
                }
                return Some(&self.entries[i].1);
            }
            proof {
                assert(self.entry_seq()[i as int].0 != key@);
            }
        }
        proof {
            lemma_assoc_map_absent(self.entry_seq(), key@);
        }
        None
    }
}

impl<V> View for KeyedStore<V> {
    type V = Map<Seq<char>, V>;

    closed spec fn view(&self) -> Map<Seq<char>, V> {
        assoc_map(self.entry_seq())
    }
}

} // verus!
