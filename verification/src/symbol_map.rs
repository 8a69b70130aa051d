use vstd::prelude::*;

verus! {

/// The value of the first entry whose key is `key`, if there is one.
pub open spec fn spec_lookup<V>(entries: Seq<(String, V)>, key: Seq<char>) -> Option<V>
    decreases entries.len(),
{
    if entries.len() == 0 {
        None
    } else if entries.first().0@ == key {
        Some(entries.first().1)
    } else {
        spec_lookup(entries.drop_first(), key)
    }
}

/// Whether no two entries have one key.
pub open spec fn distinct_keys<V>(entries: Seq<(String, V)>) -> bool {
    forall|i: int, j: int|
        #![trigger entries[i], entries[j]]
        0 <= i < j < entries.len() ==> entries[i].0@ != entries[j].0@
}

/// A map from symbols to values, kept as a list of entries. In a well-formed
/// map every symbol has one entry at most: `new` gives such a map and
/// `insert` keeps it so. Where a symbol has more than one entry all the
/// same, the first is the one that counts.
#[derive(Debug)]
pub struct SymbolMap<V> {
    /// The entries, in the order in which their symbols first came.
    pub entries: Vec<(String, V)>,
}

impl<V> SymbolMap<V> {
    /// Whether the map is well formed: no symbol has two entries.
    pub open spec fn wf(&self) -> bool {
        distinct_keys(self.entries@)
    }
}

impl<V> View for SymbolMap<V> {
    type V = Map<Seq<char>, V>;

    open spec fn view(&self) -> Map<Seq<char>, V> {
        Map::new(
            |key: Seq<char>| spec_lookup(self.entries@, key) is Some,
            |key: Seq<char>| spec_lookup(self.entries@, key).unwrap(),
        )
    }
}

/// Entries whose keys all differ from `key` have no value for it.
pub proof fn lemma_lookup_absent<V>(entries: Seq<(String, V)>, key: Seq<char>)
    requires
        forall|j: int| 0 <= j < entries.len() ==> (#[trigger] entries[j]).0@ != key,
    ensures
        spec_lookup(entries, key) is None,
    decreases entries.len(),
{
    if entries.len() > 0 {
        assert(entries[0].0@ != key);
        let rest = entries.drop_first();
        assert forall|j: int| 0 <= j < rest.len() implies (#[trigger] rest[j]).0@ != key by {
            assert(rest[j] == entries[j + 1]);
        }
        lemma_lookup_absent(rest, key);
    }
}

/// The entry at `i` gives the value of `key` when it is the first with that
/// key.
pub proof fn lemma_lookup_first<V>(entries: Seq<(String, V)>, key: Seq<char>, i: int)
    requires
        0 <= i < entries.len(),
        entries[i].0@ == key,
        forall|j: int| 0 <= j < i ==> (#[trigger] entries[j]).0@ != key,
    ensures
        spec_lookup(entries, key) == Some(entries[i].1),
    decreases i,
{
    if i > 0 {
        assert(entries[0].0@ != key);
        let rest = entries.drop_first();
        assert(rest[i - 1] == entries[i]);
        assert forall|j: int| 0 <= j < i - 1 implies (#[trigger] rest[j]).0@ != key by {
            assert(rest[j] == entries[j + 1]);
        }
        lemma_lookup_first(rest, key, i - 1);
    }
}

/// A new entry at the end counts for its key when no entry had that key, and
/// changes nothing for any other key.
pub proof fn lemma_lookup_push<V>(entries: Seq<(String, V)>, entry: (String, V), key: Seq<char>)
    requires
        forall|j: int| 0 <= j < entries.len() ==> (#[trigger] entries[j]).0@ != entry.0@,
    ensures
        spec_lookup(entries.push(entry), key) == if key == entry.0@ {
            Some(entry.1)
        } else {
            spec_lookup(entries, key)
        },
    decreases entries.len(),
{
    let longer = entries.push(entry);
    if entries.len() == 0 {
        assert(longer.drop_first() =~= entries);
    } else {
        assert(longer.first() == entries.first());
        assert(entries[0].0@ != entry.0@);
        let rest = entries.drop_first();
        assert(longer.drop_first() =~= rest.push(entry));
        assert forall|j: int| 0 <= j < rest.len() implies (#[trigger] rest[j]).0@ != entry.0@ by {
            assert(rest[j] == entries[j + 1]);
        }
        lemma_lookup_push(rest, entry, key);
    }
}

/// A new value in the first entry of a key counts for that key, and changes
/// nothing for any other key.
pub proof fn lemma_lookup_update<V>(
    entries: Seq<(String, V)>,
    i: int,
    entry: (String, V),
    key: Seq<char>,
)
    requires
        0 <= i < entries.len(),
        entries[i].0@ == entry.0@,
        forall|j: int| 0 <= j < i ==> (#[trigger] entries[j]).0@ != entry.0@,
    ensures
        spec_lookup(entries.update(i, entry), key) == if key == entry.0@ {
            Some(entry.1)
        } else {
            spec_lookup(entries, key)
        },
    decreases i,
{
    let updated = entries.update(i, entry);
    if i == 0 {
        assert(updated.drop_first() =~= entries.drop_first());
    } else {
        assert(entries[0].0@ != entry.0@);
        assert(updated.first() == entries.first());
        let rest = entries.drop_first();
        assert(updated.drop_first() =~= rest.update(i - 1, entry));
        assert(rest[i - 1] == entries[i]);
        assert forall|j: int| 0 <= j < i - 1 implies (#[trigger] rest[j]).0@ != entry.0@ by {
            assert(rest[j] == entries[j + 1]);
        }
        lemma_lookup_update(rest, i - 1, entry, key);
    }
}

/// In a well-formed map every entry counts: the map has the value of each
/// entry under the key of that entry, in whatever order the entries stand.
pub proof fn lemma_every_entry_counts<V>(map: SymbolMap<V>, i: int)
    requires
        map.wf(),
        0 <= i < map.entries@.len(),
    ensures
        map@.contains_key(map.entries@[i].0@),
        map@[map.entries@[i].0@] == map.entries@[i].1,
{
    let entries = map.entries@;
    assert forall|j: int| 0 <= j < i implies (#[trigger] entries[j]).0@ != entries[i].0@ by {
        assert(entries[j].0@ != entries[i].0@);
    }
    lemma_lookup_first(entries, entries[i].0@, i);
}

impl<V: Copy> SymbolMap<V> {
    /// A map without entries.
    pub fn new() -> (map: Self)
        ensures
            map.wf(),
            map@ == Map::<Seq<char>, V>::empty(),
            map.entries@.len() == 0,
    {
        let map = SymbolMap { entries: Vec::new() };
        assert(map@ =~= Map::<Seq<char>, V>::empty());
        map
    }

    /// Whether the map has no entries.
    pub fn is_empty(&self) -> (empty: bool)
        ensures
            empty == (self.entries@.len() == 0),
            empty ==> self@ == Map::<Seq<char>, V>::empty(),
    {
        let empty = self.entries.len() == 0;
        if empty {
            assert(self@ =~= Map::<Seq<char>, V>::empty());
        }
        empty
    }

    /// The place of the first entry whose key is `key`, if there is one.
    fn find(&self, key: &String) -> (place: Option<usize>)
        ensures
            match place {
                Some(i) => i < self.entries@.len() && self.entries@[i as int].0@ == key@
                    && forall|j: int| 0 <= j < i ==> (#[trigger] self.entries@[j]).0@ != key@,
                None => forall|j: int|
                    0 <= j < self.entries@.len() ==> (#[trigger] self.entries@[j]).0@ != key@,
            },
    {
        let n: usize = self.entries.len();
        let mut i: usize = 0;
        while i < n
            invariant
                n == self.entries@.len(),
                i <= n,
                forall|j: int| 0 <= j < i ==> (#[trigger] self.entries@[j]).0@ != key@,
            decreases n - i,
        {
            if self.entries[i].0 == *key {
                return Some(i);
            }
            i = i + 1;
        }
        None
    }

    /// The value under `key`, if there is one.
    pub fn get(&self, key: &String) -> (value: Option<V>)
        ensures
            value == (if self@.contains_key(key@) {
                Some(self@[key@])
            } else {
                None
            }),
    {
        match self.find(key) {
            Some(i) => {
                proof {
                    lemma_lookup_first(self.entries@, key@, i as int);
                }
                Some(self.entries[i].1)
            },
            None => {
                proof {
                    lemma_lookup_absent(self.entries@, key@);
                }
                None
            },
        }
    }

    /// Puts `value` under `key`, in the place of what the key had before.
    pub fn insert(&mut self, key: String, value: V)
        ensures
            final(self)@ == old(self)@.insert(key@, value),
            old(self).wf() ==> final(self).wf(),
    {
        let ghost before = self.entries@;
        let ghost entry = (key, value);
        match self.find(&key) {
            Some(i) => {
                self.entries.set(i, (key, value));
                proof {
                    assert(self.entries@ == before.update(i as int, entry));
                    if distinct_keys(before) {
                        assert forall|a: int, b: int|
                            #![trigger self.entries@[a], self.entries@[b]]
                            0 <= a < b < self.entries@.len() implies self.entries@[a].0@
                            != self.entries@[b].0@ by {
                            assert(self.entries@[a].0@ == before[a].0@);
                            assert(self.entries@[b].0@ == before[b].0@);
                        }
                    }
                    assert forall|k: Seq<char>|
                        spec_lookup(self.entries@, k) == (if k == entry.0@ {
                            Some(value)
                        } else {
                            spec_lookup(before, k)
                        }) by {
                        lemma_lookup_update(before, i as int, entry, k);
                    }
                }
            },
            None => {
                self.entries.push((key, value));
                proof {
                    assert(self.entries@ == before.push(entry));
                    if distinct_keys(before) {
                        assert forall|a: int, b: int|
                            #![trigger self.entries@[a], self.entries@[b]]
                            0 <= a < b < self.entries@.len() implies self.entries@[a].0@
                            != self.entries@[b].0@ by {
                            assert(self.entries@[a] == before[a]);
                            if b < before.len() {
                                assert(self.entries@[b] == before[b]);
                            }
                        }
                    }
                    assert forall|k: Seq<char>|
                        spec_lookup(self.entries@, k) == (if k == entry.0@ {
                            Some(value)
                        } else {
                            spec_lookup(before, k)
                        }) by {
                        lemma_lookup_push(before, entry, k);
                    }
                }
            },
        }
        assert(self@ =~= old(self)@.insert(key@, value));
    }
}

} // verus!
