//! A map from text to text, kept as a list of entries with distinct keys.

use vstd::prelude::*;

verus! {

/// Whether no two entries of a list share a key.
pub open spec fn keys_unique(entries: Seq<(String, String)>) -> bool {
    forall|i: int, j: int|
        0 <= i < j < entries.len() ==> (#[trigger] entries[i]).0@ != (#[trigger] entries[j]).0@
}

/// Whether some entry of a list has the key.
pub open spec fn has_key(entries: Seq<(String, String)>, key: Seq<char>) -> bool {
    exists|i: int| 0 <= i < entries.len() && (#[trigger] entries[i]).0@ == key
}

/// The place of an entry with the key.
pub open spec fn index_of_key(entries: Seq<(String, String)>, key: Seq<char>) -> int {
    choose|i: int| 0 <= i < entries.len() && (#[trigger] entries[i]).0@ == key
}

/// The map that a list of entries stands for.
pub open spec fn entries_map(entries: Seq<(String, String)>) -> Map<Seq<char>, Seq<char>> {
    Map::new(
        |key: Seq<char>| has_key(entries, key),
        |key: Seq<char>| entries[index_of_key(entries, key)].1@,
    )
}

/// In a list with distinct keys, the entry at `i` is the one that the map
/// holds under its key.
pub proof fn lemma_entry_in_map(entries: Seq<(String, String)>, i: int)
    requires
        keys_unique(entries),
        0 <= i < entries.len(),
    ensures
        entries_map(entries).contains_key(entries[i].0@),
        entries_map(entries)[entries[i].0@] == entries[i].1@,
        index_of_key(entries, entries[i].0@) == i,
{
    let key = entries[i].0@;
    assert(has_key(entries, key));
    let j = index_of_key(entries, key);
    assert(0 <= j < entries.len() && entries[j].0@ == key);
    if j != i {
        if j < i {
            assert(entries[j].0@ != entries[i].0@);
        } else {
            assert(entries[i].0@ != entries[j].0@);
        }
    }
}

/// A map from text to text.
#[derive(Debug)]
pub struct StringMap {
    entries: Vec<(String, String)>,
}

impl View for StringMap {
    type V = Map<Seq<char>, Seq<char>>;

    closed spec fn view(&self) -> Map<Seq<char>, Seq<char>> {
        entries_map(self.entries@)
    }
}

impl DeepView for StringMap {
    type V = Map<Seq<char>, Seq<char>>;

    open spec fn deep_view(&self) -> Map<Seq<char>, Seq<char>> {
        self@
    }
}

impl StringMap {
    #[verifier::type_invariant]
    spec fn distinct_keys(self) -> bool {
        keys_unique(self.entries@)
    }

    /// The entries of the map as a list: every key once, in the order in
    /// which the keys were first inserted.
    pub closed spec fn list(self) -> Seq<(String, String)> {
        self.entries@
    }

    /// A map without entries.
    pub fn new() -> (map: Self)
        ensures
            map@ == Map::<Seq<char>, Seq<char>>::empty(),
            map.list().len() == 0,
    {
        let map = StringMap { entries: Vec::new() };
        assert(map@ =~= Map::<Seq<char>, Seq<char>>::empty());
        map
    }

    /// The number of keys.
    pub fn len(&self) -> (n: usize)
        ensures
            n == self.list().len(),
    {
        self.entries.len()
    }

    /// Whether the map has no entry.
    pub fn is_empty(&self) -> (empty: bool)
        ensures
            empty == (self.list().len() == 0),
            empty == (self@ =~= Map::<Seq<char>, Seq<char>>::empty()),
    {
        proof {
            use_type_invariant(self);
            if self.entries@.len() > 0 {
                lemma_entry_in_map(self.entries@, 0);
            }
        }
        self.entries.len() == 0
    }

    /// The place of a key in the list, if the map has the key.
    fn position(&self, key: &str) -> (at: Option<usize>)
        ensures
            match at {
                Some(i) => i < self.entries@.len() && self.entries@[i as int].0@ == key@,
                None => !has_key(self.entries@, key@),
            },
    {
        let wanted = key.to_owned();
        let mut i: usize = 0;
        while i < self.entries.len()
            invariant
                i <= self.entries@.len(),
                wanted@ == key@,
                forall|j: int| 0 <= j < i ==> (#[trigger] self.entries@[j]).0@ != key@,
            decreases self.entries@.len() - i,
        {
            if self.entries[i].0 == wanted {
                return Some(i);
            }
            i += 1;
        }
        None
    }

    /// The value under a key.
    pub fn get(&self, key: &str) -> (value: Option<&String>)
        ensures
            match value {
                Some(v) => self@.contains_key(key@) && self@[key@] == v@,
                None => !self@.contains_key(key@),
            },
    {
        proof {
            use_type_invariant(self);
        }
        match self.position(key) {
            Some(i) => {
                proof {
                    lemma_entry_in_map(self.entries@, i as int);
                }
                Some(&self.entries[i].1)
            },
            None => None,
        }
    }

    /// Whether the map has the key.
    pub fn contains_key(&self, key: &str) -> (found: bool)
        ensures
            found == self@.contains_key(key@),
    {
        self.get(key).is_some()
    }

    /// Puts a value under a key, in place of the value that was there.
    pub fn insert(&mut self, key: String, value: String)
        ensures
            final(self)@ == old(self)@.insert(key@, value@),
    {
        proof {
            use_type_invariant(&*self);
        }
        let ghost before = self.entries@;
        match self.position(key.as_str()) {
            Some(i) => {
                let mut entries: Vec<(String, String)> = Vec::new();
                std::mem::swap(&mut entries, &mut self.entries);
                let kept = entries[i].0.clone();
                entries.set(i, (kept, value));
                proof {
                    let after = entries@;
                    assert(keys_unique(after)) by {
                        assert forall|a: int, b: int| 0 <= a < b < after.len() implies (
                        #[trigger] after[a]).0@ != (#[trigger] after[b]).0@ by {
                            assert(before[a].0@ != before[b].0@);
                        }
                    }
                    assert(entries_map(after) =~= entries_map(before).insert(key@, value@)) by {
                        assert forall|k: Seq<char>| has_key(after, k) == (has_key(before, k) || k
                            == key@) by {
                            if has_key(after, k) {
                                let j = index_of_key(after, k);
                                assert(before[j].0@ == k);
                            }
                            if has_key(before, k) {
                                let j = index_of_key(before, k);
                                assert(after[j].0@ == k);
                            }
                            if k == key@ {
                                assert(after[i as int].0@ == k);
                            }
                        }
                        assert forall|k: Seq<char>| has_key(after, k) implies entries_map(after)[k]
                            == entries_map(before).insert(key@, value@)[k] by {
                            let j = index_of_key(after, k);
                            lemma_entry_in_map(after, j);
                            if k != key@ {
                                assert(before[j].0@ == k);
                                lemma_entry_in_map(before, j);
                            } else {
                                lemma_entry_in_map(after, i as int);
                            }
                        }
                    }
                }
                self.entries = entries;
            },
            None => {
                let mut entries: Vec<(String, String)> = Vec::new();
                std::mem::swap(&mut entries, &mut self.entries);
                entries.push((key, value));
                proof {
                    let after = entries@;
                    let last = before.len() as int;
                    assert(keys_unique(after)) by {
                        assert forall|a: int, b: int| 0 <= a < b < after.len() implies (
                        #[trigger] after[a]).0@ != (#[trigger] after[b]).0@ by {
                            if b < last {
                                assert(before[a].0@ != before[b].0@);
                            } else {
                                assert(before[a].0@ != key@);
                            }
                        }
                    }
                    assert(entries_map(after) =~= entries_map(before).insert(key@, value@)) by {
                        assert forall|k: Seq<char>| has_key(after, k) == (has_key(before, k) || k
                            == key@) by {
                            if has_key(after, k) {
                                let j = index_of_key(after, k);
                                if j < last {
                                    assert(before[j].0@ == k);
                                }
                            }
                            if has_key(before, k) {
                                let j = index_of_key(before, k);
                                assert(after[j].0@ == k);
                            }
                            if k == key@ {
                                assert(after[last].0@ == k);
                            }
                        }
                        assert forall|k: Seq<char>| has_key(after, k) implies entries_map(after)[k]
                            == entries_map(before).insert(key@, value@)[k] by {
                            let j = index_of_key(after, k);
                            lemma_entry_in_map(after, j);
                            if k != key@ {
                                assert(before[j].0@ == k);
                                lemma_entry_in_map(before, j);
                            } else {
                                lemma_entry_in_map(after, last);
                            }
                        }
                    }
                }
                self.entries = entries;
            },
        }
    }

    /// Puts every entry of another map into this one, in place of what was
    /// there under the same key.
    pub fn extend(&mut self, other: &StringMap)
        ensures
            final(self)@ == old(self)@.union_prefer_right(other@),
    {
        let entries = other.entries();
        let ghost start = self@;
        let mut i: usize = 0;
        proof {
            assert(entries_map(entries@.take(0)) =~= Map::<Seq<char>, Seq<char>>::empty());
            assert(start.union_prefer_right(Map::<Seq<char>, Seq<char>>::empty()) =~= start);
        }
        while i < entries.len()
            invariant
                i <= entries@.len(),
                keys_unique(entries@),
                self@ == start.union_prefer_right(entries_map(entries@.take(i as int))),
            decreases entries@.len() - i,
        {
            let key = entries[i].0.clone();
            let value = entries[i].1.clone();
            self.insert(key, value);
            proof {
                lemma_take_insert(entries@, i as int);
                let shorter = entries_map(entries@.take(i as int));
                assert(start.union_prefer_right(shorter).insert(key@, value@)
                    =~= start.union_prefer_right(shorter.insert(key@, value@)));
            }
            i += 1;
        }
        assert(entries@.take(i as int) =~= entries@);
    }

    /// The entries of the map, every key once.
    pub fn entries(&self) -> (entries: &Vec<(String, String)>)
        ensures
            entries@ == self.list(),
            keys_unique(entries@),
            entries_map(entries@) == self@,
    {
        proof {
            use_type_invariant(self);
        }
        &self.entries
    }
}

impl Clone for StringMap {
    fn clone(&self) -> (copy: Self)
        ensures
            copy@ == self@,
    {
        let mut copy = StringMap::new();
        let mut i: usize = 0;
        proof {
            use_type_invariant(self);
        }
        while i < self.entries.len()
            invariant
                i <= self.entries@.len(),
                keys_unique(self.entries@),
                copy@ == entries_map(self.entries@.take(i as int)),
            decreases self.entries@.len() - i,
        {
            let key = self.entries[i].0.clone();
            let value = self.entries[i].1.clone();
            copy.insert(key, value);
            proof {
                lemma_take_insert(self.entries@, i as int);
            }
            i += 1;
        }
        assert(self.entries@.take(self.entries@.len() as int) =~= self.entries@);
        copy
    }
}

/// Taking one more entry of a list with distinct keys inserts that entry
/// into the map of those taken before.
pub proof fn lemma_take_insert(entries: Seq<(String, String)>, i: int)
    requires
        keys_unique(entries),
        0 <= i < entries.len(),
    ensures
        entries_map(entries.take(i + 1)) == entries_map(entries.take(i)).insert(
            entries[i].0@,
            entries[i].1@,
        ),
{
    let shorter = entries.take(i);
    let longer = entries.take(i + 1);
    assert(keys_unique(longer)) by {
        assert forall|a: int, b: int| 0 <= a < b < longer.len() implies (#[trigger] longer[a]).0@
            != (#[trigger] longer[b]).0@ by {
            assert(entries[a].0@ != entries[b].0@);
        }
    }
    assert(keys_unique(shorter)) by {
        assert forall|a: int, b: int| 0 <= a < b < shorter.len() implies (
        #[trigger] shorter[a]).0@ != (#[trigger] shorter[b]).0@ by {
            assert(entries[a].0@ != entries[b].0@);
        }
    }
    let key = entries[i].0@;
    assert forall|k: Seq<char>| has_key(longer, k) == (has_key(shorter, k) || k == key) by {
        if has_key(longer, k) {
            let j = index_of_key(longer, k);
            if j < i {
                assert(shorter[j].0@ == k);
            }
        }
        if has_key(shorter, k) {
            let j = index_of_key(shorter, k);
            assert(longer[j].0@ == k);
        }
        if k == key {
            assert(longer[i].0@ == k);
        }
    }
    assert forall|k: Seq<char>| has_key(longer, k) implies entries_map(longer)[k] == entries_map(
        shorter,
    ).insert(key, entries[i].1@)[k] by {
        let j = index_of_key(longer, k);
        lemma_entry_in_map(longer, j);
        if k != key {
            assert(shorter[j].0@ == k);
            lemma_entry_in_map(shorter, j);
        } else {
            lemma_entry_in_map(longer, i);
        }
    }
    assert(entries_map(longer) =~= entries_map(shorter).insert(key, entries[i].1@));
}

} // verus!
