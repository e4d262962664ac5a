//! A small map from text keys to values, kept in insertion order.

use vstd::prelude::*;
use crate::text::same_text;

verus! {

struct Entry<V> {
    key: String,
    value: V,
}

/// No two entries share a key.
spec fn keys_distinct<V>(entries: Seq<Entry<V>>) -> bool {
    forall|i: int, j: int|
        0 <= i < j < entries.len() ==> (#[trigger] entries[i]).key@ != (#[trigger] entries[j]).key@
}

/// Whether `key` stands at position `i`.
spec fn key_at<V>(entries: Seq<Entry<V>>, key: Seq<char>, i: int) -> bool {
    0 <= i < entries.len() && entries[i].key@ == key
}

/// The map that a sequence of entries with distinct keys stands for.
spec fn as_map<V>(entries: Seq<Entry<V>>) -> Map<Seq<char>, V> {
    Map::new(
        |k: Seq<char>| exists|i: int| key_at(entries, k, i),
        |k: Seq<char>| entries[choose|i: int| key_at(entries, k, i)].value,
    )
}

/// With distinct keys, the entry at position `i` is what the map holds under
/// that entry's key.
proof fn lemma_as_map_at<V>(entries: Seq<Entry<V>>, i: int)
    requires
        keys_distinct(entries),
        0 <= i < entries.len(),
    ensures
        as_map(entries).contains_key(entries[i].key@),
        as_map(entries)[entries[i].key@] == entries[i].value,
{
    let k = entries[i].key@;
    assert(key_at(entries, k, i));
    let c = choose|c: int| key_at(entries, k, c);
    if c < i {
        assert(entries[c].key@ != entries[i].key@);
    } else if i < c {
        assert(entries[i].key@ != entries[c].key@);
    }
}

/// A map from text keys to values in which no key occurs twice.
pub struct Table<V> {
    entries: Vec<Entry<V>>,
}

impl<V> View for Table<V> {
    type V = Map<Seq<char>, V>;

    closed spec fn view(&self) -> Map<Seq<char>, V> {
        as_map(self.entries@)
    }
}

impl<V> Table<V> {
    #[verifier::type_invariant]
    spec fn wf(self) -> bool {
        keys_distinct(self.entries@)
    }

    /// An empty table.
    pub fn new() -> (t: Self)
        ensures
            t@ == Map::<Seq<char>, V>::empty(),
    {
        let t = Table { entries: Vec::new() };
        assert(t@ =~= Map::<Seq<char>, V>::empty());
        t
    }

    fn find(&self, key: &str) -> (r: Option<usize>)
        ensures
            match r {
                Some(i) => key_at(self.entries@, key@, i as int),
                None => forall|i: int| !key_at(self.entries@, key@, i),
            },
    {
        let mut i: usize = 0;
        while i < self.entries.len()
            invariant
                i <= self.entries.len(),
                forall|j: int| 0 <= j < i ==> !key_at(self.entries@, key@, j),
            decreases self.entries.len() - i,
        {
            if same_text(self.entries[i].key.as_str(), key) {
                return Some(i);
            }
            i += 1;
        }
        None
    }

    /// Whether the table holds `key`.
    pub fn contains_key(&self, key: &str) -> (r: bool)
        ensures
            r == self@.contains_key(key@),
    {
        self.find(key).is_some()
    }

    /// The value under `key`, if the table holds it.
    pub fn get(&self, key: &str) -> (r: Option<&V>)
        ensures
            match r {
                Some(v) => self@.contains_key(key@) && *v == self@[key@],
                None => !self@.contains_key(key@),
            },
    {
        proof {
            use_type_invariant(self);
        }
        match self.find(key) {
            Some(i) => {
                proof {
                    lemma_as_map_at(self.entries@, i as int);
                }
                Some(&self.entries[i].value)
            },
            None => None,
        }
    }

    /// Puts `value` under `key`, and hands back what stood there before.
    pub fn insert(&mut self, key: String, value: V) -> (previous: Option<V>)
        ensures
            final(self)@ == old(self)@.insert(key@, value),
            match previous {
                Some(v) => old(self)@.contains_key(key@) && v == old(self)@[key@],
                None => !old(self)@.contains_key(key@),
            },
    {
        proof {
            use_type_invariant(&*self);
        }
        let ghost before = self.entries@;
        let ghost k = key@;
        match self.find(key.as_str()) {
            Some(i) => {
                proof {
                    lemma_as_map_at(before, i as int);
                }
                let mut entries: Vec<Entry<V>> = Vec::new();
                std::mem::swap(&mut self.entries, &mut entries);
                let old_entry = entries.remove(i);
                let ghost middle = entries@;
                assert(keys_distinct(middle)) by {
                    assert forall|a: int, b: int| 0 <= a < b < middle.len() implies (
                    #[trigger] middle[a]).key@ != (#[trigger] middle[b]).key@ by {
                        let a0 = if a < i { a } else { a + 1 };
                        let b0 = if b < i { b } else { b + 1 };
                        assert(before[a0].key@ != before[b0].key@);
                    }
                }
                assert(forall|j: int|
                    0 <= j < middle.len() ==> (#[trigger] middle[j]).key@ != k) by {
                    assert forall|j: int| 0 <= j < middle.len() implies (#[trigger] middle[j]).key@
                        != k by {
                        let j0 = if j < i { j } else { j + 1 };
                        if j0 < i {
                            assert(before[j0].key@ != before[i as int].key@);
                        } else {
                            assert(before[i as int].key@ != before[j0].key@);
                        }
                    }
                }
                entries.insert(i, Entry { key, value });
                proof {
                    lemma_replaced(before, entries@, i as int);
                }
                self.entries = entries;
                Some(old_entry.value)
            },
            None => {
                let mut entries: Vec<Entry<V>> = Vec::new();
                std::mem::swap(&mut self.entries, &mut entries);
                entries.push(Entry { key, value });
                proof {
                    assert(entries@.drop_last() == before);
                    lemma_pushed(before, entries@);
                }
                self.entries = entries;
                None
            },
        }
    }

    /// Takes `key` and its value out of the table.
    pub fn remove(&mut self, key: &str) -> (taken: Option<V>)
        ensures
            final(self)@ == old(self)@.remove(key@),
            match taken {
                Some(v) => old(self)@.contains_key(key@) && v == old(self)@[key@],
                None => !old(self)@.contains_key(key@),
            },
    {
        proof {
            use_type_invariant(&*self);
        }
        let ghost before = self.entries@;
        match self.find(key) {
            Some(i) => {
                proof {
                    lemma_as_map_at(before, i as int);
                }
                let mut entries: Vec<Entry<V>> = Vec::new();
                std::mem::swap(&mut self.entries, &mut entries);
                let old_entry = entries.remove(i);
                proof {
                    lemma_removed(before, entries@, i as int);
                }
                self.entries = entries;
                Some(old_entry.value)
            },
            None => {
                assert(self@ =~= old(self)@.remove(key@));
                None
            },
        }
    }
}

/// Pushing an entry with a fresh key keeps keys distinct and inserts into
/// the map.
proof fn lemma_pushed<V>(before: Seq<Entry<V>>, after: Seq<Entry<V>>)
    requires
        keys_distinct(before),
        after.len() == before.len() + 1,
        after.drop_last() == before,
        forall|i: int| !key_at(before, after.last().key@, i),
    ensures
        keys_distinct(after),
        as_map(after) == as_map(before).insert(after.last().key@, after.last().value),
{
    let k = after.last().key@;
    assert forall|a: int, b: int| 0 <= a < b < after.len() implies (#[trigger] after[a]).key@ != (
    #[trigger] after[b]).key@ by {
        assert(after[a] == before[a]);
        if b < before.len() {
            assert(after[b] == before[b]);
        } else {
            assert(!key_at(before, k, a));
        }
    }
    let m = as_map(before).insert(k, after.last().value);
    assert forall|q: Seq<char>| as_map(after).contains_key(q) implies #[trigger] m.contains_key(
        q,
    ) by {
        let i = choose|i: int| key_at(after, q, i);
        if i < before.len() {
            assert(after[i] == before[i]);
            assert(key_at(before, q, i));
        }
    }
    assert forall|q: Seq<char>| #[trigger] m.contains_key(q) implies as_map(after).contains_key(
        q,
    ) && as_map(after)[q] == m[q] by {
        if q == k {
            lemma_as_map_at(after, after.len() - 1);
        } else {
            let i = choose|i: int| key_at(before, q, i);
            assert(after[i] == before[i]);
            lemma_as_map_at(after, i);
            lemma_as_map_at(before, i);
        }
    }
    assert(as_map(after) =~= m);
}

/// Removing the entry at `at` keeps keys distinct and removes its key from
/// the map.
proof fn lemma_removed<V>(before: Seq<Entry<V>>, after: Seq<Entry<V>>, at: int)
    requires
        keys_distinct(before),
        0 <= at < before.len(),
        after == before.remove(at),
    ensures
        keys_distinct(after),
        as_map(after) == as_map(before).remove(before[at].key@),
{
    let k = before[at].key@;
    assert forall|a: int, b: int| 0 <= a < b < after.len() implies (#[trigger] after[a]).key@ != (
    #[trigger] after[b]).key@ by {
        let a0 = if a < at { a } else { a + 1 };
        let b0 = if b < at { b } else { b + 1 };
        assert(before[a0].key@ != before[b0].key@);
    }
    let m = as_map(before).remove(k);
    assert forall|q: Seq<char>| as_map(after).contains_key(q) implies #[trigger] m.contains_key(
        q,
    ) by {
        let i = choose|i: int| key_at(after, q, i);
        let i0 = if i < at { i } else { i + 1 };
        assert(key_at(before, q, i0));
        if i0 < at {
            assert(before[i0].key@ != before[at].key@);
        } else {
            assert(before[at].key@ != before[i0].key@);
        }
    }
    assert forall|q: Seq<char>| #[trigger] m.contains_key(q) implies as_map(after).contains_key(
        q,
    ) && as_map(after)[q] == m[q] by {
        let i = choose|i: int| key_at(before, q, i);
        let j = if i < at { i } else { i - 1 };
        assert(after[j] == before[i]);
        lemma_as_map_at(after, j);
        lemma_as_map_at(before, i);
    }
    assert(as_map(after) =~= m);
}

/// Replacing the entry at `at` by one with the same key keeps keys distinct
/// and overwrites the key in the map.
proof fn lemma_replaced<V>(before: Seq<Entry<V>>, after: Seq<Entry<V>>, at: int)
    requires
        keys_distinct(before),
        0 <= at < before.len(),
        after.len() == before.len(),
        after[at].key@ == before[at].key@,
        forall|i: int| 0 <= i < before.len() && i != at ==> after[i] == before[i],
    ensures
        keys_distinct(after),
        as_map(after) == as_map(before).insert(after[at].key@, after[at].value),
{
    let k = after[at].key@;
    assert forall|a: int, b: int| 0 <= a < b < after.len() implies (#[trigger] after[a]).key@ != (
    #[trigger] after[b]).key@ by {
        assert(before[a].key@ != before[b].key@);
    }
    let m = as_map(before).insert(k, after[at].value);
    lemma_as_map_at(before, at);
    assert forall|q: Seq<char>| as_map(after).contains_key(q) implies #[trigger] m.contains_key(
        q,
    ) by {
        let i = choose|i: int| key_at(after, q, i);
        assert(key_at(before, q, i));
    }
    assert forall|q: Seq<char>| #[trigger] m.contains_key(q) implies as_map(after).contains_key(
        q,
    ) && as_map(after)[q] == m[q] by {
        if q == k {
            lemma_as_map_at(after, at);
        } else {
            assert(as_map(before).contains_key(q));
            let i = choose|i: int| key_at(before, q, i);
            assert(i != at);
            assert(after[i] == before[i]);
            assert(key_at(after, q, i));
            lemma_as_map_at(after, i);
            lemma_as_map_at(before, i);
        }
    }
    assert(as_map(after).dom() =~= m.dom());
    assert(as_map(after) =~= m);
}

} // verus!
