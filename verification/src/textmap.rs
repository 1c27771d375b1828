//! Maps from text to values, ordered by key.

use vstd::prelude::*;

use crate::text;

verus! {

/// Whether the keys ascend, so that none occurs twice.
pub open spec fn ascending<V>(entries: Seq<(String, V)>) -> bool {
    forall|i: int, j: int|
        0 <= i < j < entries.len() ==> text::precedes(
            (#[trigger] entries[i]).0@,
            (#[trigger] entries[j]).0@,
        )
}

/// Whether some entry has the key.
pub open spec fn has_key<V>(entries: Seq<(String, V)>, key: Seq<char>) -> bool {
    exists|i: int| 0 <= i < entries.len() && (#[trigger] entries[i]).0@ == key
}

/// Where the entry with the key is.
pub open spec fn position<V>(entries: Seq<(String, V)>, key: Seq<char>) -> int {
    choose|i: int| 0 <= i < entries.len() && (#[trigger] entries[i]).0@ == key
}

/// The map that the entries make.
pub open spec fn map_of<V>(entries: Seq<(String, V)>) -> Map<Seq<char>, V> {
    Map::new(
        |key: Seq<char>| has_key(entries, key),
        |key: Seq<char>| entries[position(entries, key)].1,
    )
}

/// Whether the texts ascend.
pub open spec fn sorted(keys: Seq<Seq<char>>) -> bool {
    forall|i: int, j: int|
        0 <= i < j < keys.len() ==> text::precedes(#[trigger] keys[i], #[trigger] keys[j])
}

/// A map from text to values. Its entries are kept in ascending order of their keys.
#[derive(Debug)]
pub struct TextMap<V> {
    entries: Vec<(String, V)>,
}

impl<V> View for TextMap<V> {
    type V = Map<Seq<char>, V>;

    closed spec fn view(&self) -> Map<Seq<char>, V> {
        map_of(self.entries@)
    }
}

proof fn lemma_unique<V>(entries: Seq<(String, V)>, i: int)
    requires
        ascending(entries),
        0 <= i < entries.len(),
    ensures
        has_key(entries, entries[i].0@),
        position(entries, entries[i].0@) == i,
        map_of(entries).dom().contains(entries[i].0@),
        map_of(entries)[entries[i].0@] == entries[i].1,
{
    let p = position(entries, entries[i].0@);
    assert(entries[p].0@ == entries[i].0@);
    text::lemma_precedes_irreflexive(entries[i].0@);
    if p < i {
        assert(text::precedes(entries[p].0@, entries[i].0@));
    } else if i < p {
        assert(text::precedes(entries[i].0@, entries[p].0@));
    }
}

impl<V> TextMap<V> {
    #[verifier::type_invariant]
    spec fn is_ordered(self) -> bool {
        ascending(self.entries@)
    }

    /// An empty map.
    pub fn new() -> (r: Self)
        ensures
            r@ == Map::<Seq<char>, V>::empty(),
    {
        let r: TextMap<V> = TextMap { entries: Vec::new() };
        assert(r@ =~= Map::<Seq<char>, V>::empty());
        r
    }

    /// The map that the entries make, which ascend.
    pub fn from_entries(entries: Vec<(String, V)>) -> (r: Self)
        requires
            ascending(entries@),
        ensures
            r@ == map_of(entries@),
    {
        TextMap { entries }
    }

    /// The entries, in ascending order.
    pub fn into_entries(self) -> (r: Vec<(String, V)>)
        ensures
            ascending(r@),
            map_of(r@) == self@,
    {
        proof {
            use_type_invariant(&self);
        }
        self.entries
    }

    /// How many entries come before the key.
    fn find(&self, key: &str) -> (r: usize)
        ensures
            r <= self.entries@.len(),
            forall|i: int| 0 <= i < r ==> text::precedes((#[trigger] self.entries@[i]).0@, key@),
            r < self.entries@.len() ==> !text::precedes(self.entries@[r as int].0@, key@),
    {
        let mut i: usize = 0;
        while i < self.entries.len() && text::comes_before(self.entries[i].0.as_str(), key)
            invariant
                i <= self.entries@.len(),
                forall|k: int|
                    0 <= k < i ==> text::precedes((#[trigger] self.entries@[k]).0@, key@),
            decreases self.entries@.len() - i,
        {
            i = i + 1;
        }
        i
    }

    /// The value of a key, where it has one.
    pub fn get(&self, key: &str) -> (r: Option<&V>)
        ensures
            match r {
                Some(value) => self@.dom().contains(key@) && *value == self@[key@],
                None => !self@.dom().contains(key@),
            },
    {
        proof {
            use_type_invariant(self);
        }
        let i: usize = self.find(key);
        if i < self.entries.len() && text::same(self.entries[i].0.as_str(), key) {
            proof {
                lemma_unique(self.entries@, i as int);
            }
            Some(&self.entries[i].1)
        } else {
            proof {
                lemma_absent(self.entries@, i as int, key@);
            }
            None
        }
    }

    /// Give a key a value, in place of the one that it had.
    pub fn insert(&mut self, key: String, value: V)
        ensures
            final(self)@ == old(self)@.insert(key@, value),
    {
        proof {
            use_type_invariant(&*self);
        }
        let i: usize = self.find(key.as_str());
        let mut entries: Vec<(String, V)> = Vec::new();
        std::mem::swap(&mut entries, &mut self.entries);
        let ghost before = entries@;
        if i < entries.len() && text::same(entries[i].0.as_str(), key.as_str()) {
            let _replaced: (String, V) = entries.remove(i);
            entries.insert(i, (key, value));
            proof {
                assert(entries@ =~= before.update(i as int, (key, value)));
                lemma_replaced(before, entries@, i as int);
            }
        } else {
            proof {
                lemma_absent(before, i as int, key@);
            }
            entries.insert(i, (key, value));
            proof {
                assert(entries@ =~= before.insert(i as int, (key, value)));
                lemma_inserted(before, entries@, i as int);
            }
        }
        self.entries = entries;
    }

    /// Take a key and its value out.
    pub fn remove(&mut self, key: &str)
        ensures
            final(self)@ == old(self)@.remove(key@),
    {
        proof {
            use_type_invariant(&*self);
        }
        let i: usize = self.find(key);
        let mut entries: Vec<(String, V)> = Vec::new();
        std::mem::swap(&mut entries, &mut self.entries);
        let ghost before = entries@;
        if i < entries.len() && text::same(entries[i].0.as_str(), key) {
            let _removed: (String, V) = entries.remove(i);
            proof {
                assert(entries@ =~= before.remove(i as int));
                lemma_removed(before, entries@, i as int);
            }
        } else {
            proof {
                lemma_absent(before, i as int, key@);
                assert(map_of(before).remove(key@) =~= map_of(before));
            }
        }
        self.entries = entries;
    }

    /// The keys, in ascending order.
    pub fn keys(&self) -> (r: Vec<String>)
        ensures
            sorted(text::views(r@)),
            forall|key: Seq<char>|
                #[trigger] text::views(r@).contains(key) <==> self@.dom().contains(key),
    {
        proof {
            use_type_invariant(self);
        }
        let mut r: Vec<String> = Vec::new();
        for i in 0..self.entries.len()
            invariant
                r.len() == i,
                forall|j: int| 0 <= j < i ==> (#[trigger] r@[j])@ == self.entries@[j].0@,
        {
            r.push(self.entries[i].0.clone());
        }
        let ghost keys = text::views(r@);
        let ghost entries = self.entries@;
        proof {
            assert forall|i: int| 0 <= i < keys.len() implies #[trigger] keys[i]
                == entries[i].0@ by {
                assert(r@[i]@ == entries[i].0@);
            }
            assert forall|key: Seq<char>| #[trigger]
                keys.contains(key) <==> map_of(entries).dom().contains(key) by {
                if keys.contains(key) {
                    let i = choose|i: int| 0 <= i < keys.len() && keys[i] == key;
                    assert(entries[i].0@ == key);
                }
                if has_key(entries, key) {
                    let i = choose|i: int|
                        0 <= i < entries.len() && (#[trigger] entries[i]).0@ == key;
                    assert(keys[i] == key);
                }
            }
        }
        r
    }
}

proof fn lemma_absent<V>(entries: Seq<(String, V)>, at: int, key: Seq<char>)
    requires
        ascending(entries),
        0 <= at <= entries.len(),
        forall|i: int| 0 <= i < at ==> text::precedes((#[trigger] entries[i]).0@, key),
        at < entries.len() ==> !text::precedes(entries[at].0@, key) && entries[at].0@ != key,
    ensures
        !has_key(entries, key),
        forall|i: int| at <= i < entries.len() ==> text::precedes(key, (#[trigger] entries[i]).0@),
{
    if at < entries.len() {
        text::lemma_precedes_total(key, entries[at].0@);
    }
    assert forall|i: int| at <= i < entries.len() implies text::precedes(
        key,
        (#[trigger] entries[i]).0@,
    ) by {
        if i > at {
            assert(text::precedes(entries[at].0@, entries[i].0@));
            text::lemma_precedes_transitive(key, entries[at].0@, entries[i].0@);
        }
    }
    text::lemma_precedes_irreflexive(key);
}

proof fn lemma_replaced<V>(before: Seq<(String, V)>, after: Seq<(String, V)>, at: int)
    requires
        ascending(before),
        0 <= at < before.len(),
        after == before.update(at, after[at]),
        after[at].0@ == before[at].0@,
    ensures
        ascending(after),
        map_of(after) == map_of(before).insert(after[at].0@, after[at].1),
{
    let key = after[at].0@;
    assert forall|i: int, j: int| 0 <= i < j < after.len() implies text::precedes(
        (#[trigger] after[i]).0@,
        (#[trigger] after[j]).0@,
    ) by {
        assert(after[i].0@ == before[i].0@);
        assert(after[j].0@ == before[j].0@);
    }
    let expected = map_of(before).insert(key, after[at].1);
    assert forall|k: Seq<char>| map_of(after).dom().contains(k) <==> expected.dom().contains(k) by {
        if has_key(after, k) {
            let i = choose|i: int| 0 <= i < after.len() && (#[trigger] after[i]).0@ == k;
            assert(before[i].0@ == k);
        }
        if has_key(before, k) {
            let i = choose|i: int| 0 <= i < before.len() && (#[trigger] before[i]).0@ == k;
            assert(after[i].0@ == k);
        }
        if k == key {
            lemma_unique(after, at);
        }
    }
    assert forall|k: Seq<char>| map_of(after).dom().contains(k) implies map_of(after)[k]
        == expected[k] by {
        let i = choose|i: int| 0 <= i < after.len() && (#[trigger] after[i]).0@ == k;
        lemma_unique(after, i);
        lemma_unique(before, i);
        if i == at {
            assert(k == key);
        } else if k == key {
            lemma_unique(before, at);
        }
    }
    assert(map_of(after) =~= expected);
}

proof fn lemma_inserted<V>(before: Seq<(String, V)>, after: Seq<(String, V)>, at: int)
    requires
        ascending(before),
        0 <= at <= before.len(),
        after == before.insert(at, after[at]),
        forall|i: int| 0 <= i < at ==> text::precedes((#[trigger] before[i]).0@, after[at].0@),
        forall|i: int|
            at <= i < before.len() ==> text::precedes(after[at].0@, (#[trigger] before[i]).0@),
        !has_key(before, after[at].0@),
    ensures
        ascending(after),
        map_of(after) == map_of(before).insert(after[at].0@, after[at].1),
{
    let key = after[at].0@;
    assert forall|i: int| 0 <= i < at implies after[i] == before[i] by {}
    assert forall|i: int| at < i < after.len() implies after[i] == before[i - 1] by {}
    assert forall|i: int, j: int| 0 <= i < j < after.len() implies text::precedes(
        (#[trigger] after[i]).0@,
        (#[trigger] after[j]).0@,
    ) by {
        let p = if i < at {
            i
        } else {
            i - 1
        };
        let q = if j < at {
            j
        } else {
            j - 1
        };
        if i != at && j != at {
            assert(text::precedes(before[p].0@, before[q].0@));
        } else if i == at {
            assert(text::precedes(key, before[q].0@));
        } else {
            assert(text::precedes(before[p].0@, key));
        }
    }
    let expected = map_of(before).insert(key, after[at].1);
    assert forall|k: Seq<char>| map_of(after).dom().contains(k) <==> expected.dom().contains(k) by {
        if has_key(after, k) && k != key {
            let i = choose|i: int| 0 <= i < after.len() && (#[trigger] after[i]).0@ == k;
            let p = if i < at {
                i
            } else {
                i - 1
            };
            assert(before[p].0@ == k);
        }
        if has_key(before, k) {
            let i = choose|i: int| 0 <= i < before.len() && (#[trigger] before[i]).0@ == k;
            let p = if i < at {
                i
            } else {
                i + 1
            };
            assert(after[p].0@ == k);
        }
        if k == key {
            lemma_unique(after, at);
        }
    }
    assert forall|k: Seq<char>| map_of(after).dom().contains(k) implies map_of(after)[k]
        == expected[k] by {
        let i = choose|i: int| 0 <= i < after.len() && (#[trigger] after[i]).0@ == k;
        lemma_unique(after, i);
        if i != at {
            let p = if i < at {
                i
            } else {
                i - 1
            };
            assert(before[p] == after[i]);
            lemma_unique(before, p);
        }
    }
    assert(map_of(after) =~= expected);
}

proof fn lemma_removed<V>(before: Seq<(String, V)>, after: Seq<(String, V)>, at: int)
    requires
        ascending(before),
        0 <= at < before.len(),
        after == before.remove(at),
    ensures
        ascending(after),
        map_of(after) == map_of(before).remove(before[at].0@),
{
    let key = before[at].0@;
    assert forall|i: int| 0 <= i < at implies after[i] == before[i] by {}
    assert forall|i: int| at <= i < after.len() implies after[i] == before[i + 1] by {}
    assert forall|i: int, j: int| 0 <= i < j < after.len() implies text::precedes(
        (#[trigger] after[i]).0@,
        (#[trigger] after[j]).0@,
    ) by {
        let p = if i < at {
            i
        } else {
            i + 1
        };
        let q = if j < at {
            j
        } else {
            j + 1
        };
        assert(text::precedes(before[p].0@, before[q].0@));
    }
    let expected = map_of(before).remove(key);
    assert forall|k: Seq<char>| map_of(after).dom().contains(k) <==> expected.dom().contains(k) by {
        if has_key(after, k) {
            let i = choose|i: int| 0 <= i < after.len() && (#[trigger] after[i]).0@ == k;
            let p = if i < at {
                i
            } else {
                i + 1
            };
            assert(before[p].0@ == k);
            if k == key {
                lemma_unique(before, at);
                lemma_unique(before, p);
            }
        }
        if has_key(before, k) && k != key {
            let i = choose|i: int| 0 <= i < before.len() && (#[trigger] before[i]).0@ == k;
            let p = if i < at {
                i
            } else {
                i - 1
            };
            assert(after[p].0@ == k);
        }
    }
    assert forall|k: Seq<char>| map_of(after).dom().contains(k) implies map_of(after)[k]
        == expected[k] by {
        let i = choose|i: int| 0 <= i < after.len() && (#[trigger] after[i]).0@ == k;
        let p = if i < at {
            i
        } else {
            i + 1
        };
        assert(before[p] == after[i]);
        lemma_unique(after, i);
        lemma_unique(before, p);
        assert(expected.dom().contains(k));
        assert(expected[k] == map_of(before)[k]);
        assert(before[p].0@ == k);
    }
    assert(map_of(after) =~= expected);
}

} // verus!
