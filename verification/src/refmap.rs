//! A map keyed by text, kept as a list of entries.

use vstd::prelude::*;
use crate::text::str_eq;

verus! {

/// Values by image reference (or any other text).
#[derive(Debug)]
pub struct RefMap<V> {
    entries: Vec<(String, V)>,
}

/// Position of the first entry for `key`, or the number of entries when there is none.
pub open spec fn slot<V>(entries: Seq<(String, V)>, key: Seq<char>) -> int
    decreases entries.len(),
{
    if entries.len() == 0 || entries[0].0@ == key {
        0
    } else {
        1 + slot(entries.drop_first(), key)
    }
}

/// `slot` is the position of the first entry for `key`.
proof fn lemma_slot<V>(entries: Seq<(String, V)>, key: Seq<char>)
    ensures
        0 <= slot(entries, key) <= entries.len(),
        slot(entries, key) < entries.len() ==> entries[slot(entries, key)].0@ == key,
        forall|j: int| 0 <= j < slot(entries, key) ==> entries[j].0@ != key,
    decreases entries.len(),
{
    if entries.len() > 0 && entries[0].0@ != key {
        let t = entries.drop_first();
        lemma_slot(t, key);
        assert forall|j: int| 0 <= j < slot(entries, key) implies entries[j].0@ != key by {
            if j > 0 {
                assert(entries[j] == t[j - 1]);
            }
        }
    }
}

/// A position that holds `key` with no such entry before it is `slot`.
proof fn lemma_slot_is<V>(entries: Seq<(String, V)>, key: Seq<char>, i: int)
    requires
        0 <= i <= entries.len(),
        i < entries.len() ==> entries[i].0@ == key,
        forall|j: int| 0 <= j < i ==> entries[j].0@ != key,
    ensures
        slot(entries, key) == i,
{
    lemma_slot(entries, key);
}

/// The map that a list of entries stands for.
pub open spec fn contents<V: View>(entries: Seq<(String, V)>) -> Map<Seq<char>, V::V> {
    Map::new(
        |k: Seq<char>| slot(entries, k) < entries.len(),
        |k: Seq<char>| entries[slot(entries, k)].1@,
    )
}

impl<V: View> View for RefMap<V> {
    type V = Map<Seq<char>, V::V>;

    closed spec fn view(&self) -> Map<Seq<char>, V::V> {
        contents(self.entries@)
    }
}

/// The keys of a list of entries, in order.
pub open spec fn keys_of<V>(entries: Seq<(String, V)>) -> Seq<Seq<char>> {
    entries.map_values(|e: (String, V)| e.0@)
}

impl<V> RefMap<V> {
    /// No key occurs twice.
    #[verifier::type_invariant]
    spec fn distinct(self) -> bool {
        keys_of(self.entries@).no_duplicates()
    }
}

/// The keys of a list of entries are the domain of its map.
proof fn lemma_domain<V: View>(entries: Seq<(String, V)>)
    ensures
        contents(entries).dom() =~= keys_of(entries).to_set(),
{
    let keys = keys_of(entries);
    assert forall|k: Seq<char>| contents(entries).contains_key(k) == keys.contains(k) by {
        lemma_slot(entries, k);
        if slot(entries, k) < entries.len() {
            assert(keys[slot(entries, k)] == k);
        }
        if keys.contains(k) {
            let i = choose|i: int| 0 <= i < keys.len() && keys[i] == k;
            assert(entries[i].0@ == k);
        }
    }
}

/// An entry whose key stands nowhere before it is the one that counts.
proof fn lemma_entry<V: View>(entries: Seq<(String, V)>, i: int)
    requires
        keys_of(entries).no_duplicates(),
        0 <= i < entries.len(),
    ensures
        slot(entries, entries[i].0@) == i,
{
    assert forall|j: int| 0 <= j < i implies entries[j].0@ != entries[i].0@ by {
        assert(keys_of(entries)[j] != keys_of(entries)[i]);
    }
    lemma_slot_is(entries, entries[i].0@, i);
}

impl<V: View> RefMap<V> {
    /// An empty map.
    pub fn new() -> (r: Self)
        ensures
            r@ == Map::<Seq<char>, V::V>::empty(),
    {
        let r = RefMap { entries: Vec::new() };
        assert(r@ =~= Map::<Seq<char>, V::V>::empty());
        r
    }

    /// Number of keys.
    pub fn len(&self) -> (n: usize)
        ensures
            self@.dom().finite(),
            n == self@.dom().len(),
    {
        proof {
            use_type_invariant(self);
            lemma_domain(self.entries@);
            vstd::seq_lib::seq_to_set_is_finite(keys_of(self.entries@));
            keys_of(self.entries@).unique_seq_to_set();
        }
        self.entries.len()
    }

    /// The keys, each of them once.
    pub fn keys(&self) -> (r: Vec<String>)
        ensures
            r.deep_view().no_duplicates(),
            r.deep_view().to_set() == self@.dom(),
    {
        proof {
            use_type_invariant(self);
            lemma_domain(self.entries@);
        }
        let mut r: Vec<String> = Vec::new();
        let mut i: usize = 0;
        while i < self.entries.len()
            invariant
                i <= self.entries@.len(),
                r@.len() == i,
                forall|j: int| 0 <= j < i ==> r@[j]@ == self.entries@[j].0@,
            decreases self.entries@.len() - i,
        {
            r.push(self.entries[i].0.clone());
            i = i + 1;
        }
        assert(r.deep_view() =~= keys_of(self.entries@));
        r
    }

    /// Position of the entry for `key`.
    fn position(&self, key: &str) -> (i: usize)
        ensures
            i == slot(self.entries@, key@),
            i <= self.entries@.len(),
            i < self.entries@.len() ==> self.entries@[i as int].0@ == key@,
    {
        let mut i: usize = 0;
        while i < self.entries.len()
            invariant
                i <= self.entries@.len(),
                forall|j: int| 0 <= j < i ==> self.entries@[j].0@ != key@,
            decreases self.entries@.len() - i,
        {
            if str_eq(self.entries[i].0.as_str(), key) {
                proof {
                    lemma_slot_is(self.entries@, key@, i as int);
                }
                return i;
            }
            i = i + 1;
        }
        proof {
            lemma_slot_is(self.entries@, key@, i as int);
        }
        i
    }

    /// The value for `key`.
    pub fn get(&self, key: &str) -> (r: Option<&V>)
        ensures
            r is Some <==> self@.contains_key(key@),
            r matches Some(v) ==> v@ == self@[key@],
    {
        let i = self.position(key);
        if i < self.entries.len() {
            Some(&self.entries[i].1)
        } else {
            None
        }
    }

    /// Sets the value for `key`.
    pub fn insert(&mut self, key: String, value: V)
        ensures
            final(self)@ == old(self)@.insert(key@, value@),
    {
        proof {
            use_type_invariant(&*self);
        }
        let i = self.position(key.as_str());
        let ghost before = self.entries@;
        let ghost k = key@;
        let ghost v = value@;
        let mut entries: Vec<(String, V)> = Vec::new();
        std::mem::swap(&mut entries, &mut self.entries);
        if i < entries.len() {
            entries.set(i, (key, value));
        } else {
            entries.push((key, value));
        }
        proof {
            let after = entries@;
            lemma_slot(before, k);
            assert(after[i as int].0@ == k && after[i as int].1@ == v);
            assert forall|a: int, b: int| 0 <= a < b < after.len() implies keys_of(after)[a]
                != keys_of(after)[b] by {
                if b < before.len() {
                    assert(keys_of(before)[a] != keys_of(before)[b]);
                }
            }
            lemma_domain(before);
            lemma_domain(after);
            assert forall|q: Seq<char>| contents(after).contains_key(q) == (q == k
                || contents(before).contains_key(q)) by {
                lemma_slot(before, q);
                if q == k {
                    lemma_entry(after, i as int);
                } else if slot(before, q) < before.len() {
                    lemma_entry(after, slot(before, q));
                } else {
                    lemma_slot_is(after, q, after.len() as int);
                }
            }
            assert forall|q: Seq<char>| #[trigger] contents(after).contains_key(q) implies
                contents(after)[q] == (if q == k { v } else { contents(before)[q] }) by {
                lemma_slot(before, q);
                if q == k {
                    lemma_entry(after, i as int);
                } else {
                    lemma_entry(after, slot(before, q));
                }
            }
            assert(contents(after) =~= contents(before).insert(k, v));
        }
        self.entries = entries;
    }

    /// Drops the value for `key`.
    pub fn remove(&mut self, key: &str)
        ensures
            final(self)@ == old(self)@.remove(key@),
    {
        proof {
            use_type_invariant(&*self);
        }
        let i = self.position(key);
        let ghost before = self.entries@;
        let ghost k = key@;
        if i >= self.entries.len() {
            assert(contents(before).remove(k) =~= contents(before));
            return;
        }
        let mut entries: Vec<(String, V)> = Vec::new();
        std::mem::swap(&mut entries, &mut self.entries);
        entries.remove(i);
        proof {
            let after = entries@;
            let n = i as int;
            assert forall|a: int, b: int| 0 <= a < b < after.len() implies keys_of(after)[a]
                != keys_of(after)[b] by {
                let x = if a < n { a } else { a + 1 };
                let y = if b < n { b } else { b + 1 };
                assert(after[a] == before[x] && after[b] == before[y]);
                assert(keys_of(before)[x] != keys_of(before)[y]);
            }
            lemma_slot(before, k);
            assert forall|q: Seq<char>| contents(after).contains_key(q) == (q != k
                && contents(before).contains_key(q)) by {
                lemma_slot(before, q);
                let p = slot(before, q);
                if q == k || p == before.len() {
                    assert forall|j: int| 0 <= j < after.len() implies after[j].0@ != q by {
                        let x = if j < n { j } else { j + 1 };
                        assert(after[j] == before[x]);
                        assert(keys_of(before)[x] == before[x].0@);
                        if q == k {
                            assert(keys_of(before)[n] == k);
                        }
                    }
                    lemma_slot_is(after, q, after.len() as int);
                } else {
                    let t = if p < n { p } else { p - 1 };
                    assert(after[t] == before[p]);
                    lemma_entry(after, t);
                }
            }
            assert forall|q: Seq<char>| #[trigger] contents(after).contains_key(q) implies
                contents(after)[q] == contents(before)[q] by {
                lemma_slot(before, q);
                let p = slot(before, q);
                let t = if p < n { p } else { p - 1 };
                assert(after[t] == before[p]);
                lemma_entry(after, t);
            }
            assert(contents(after) =~= contents(before).remove(k));
        }
        self.entries = entries;
    }
}

} // verus!
