//! An in-memory map keyed by byte strings, holding at most one value per key.

use vstd::prelude::*;

use crate::bytes::bytes_eq;

verus! {

/// One key with the value stored under it.
pub struct Entry<V> {
    key: Vec<u8>,
    value: V,
}

/// A map from byte strings to values.
///
/// The entries are kept in a vector in which no key occurs twice; the view is
/// the mathematical map they form.
pub struct StorageMap<V> {
    entries: Vec<Entry<V>>,
}

/// No two entries carry the same key.
pub closed spec fn distinct_keys<V>(entries: Seq<Entry<V>>) -> bool {
    forall|i: int, j: int|
        0 <= i < entries.len() && 0 <= j < entries.len() && i != j ==> entries[i].key@
            != entries[j].key@
}

/// Some entry carries `key`.
pub closed spec fn holds_key<V>(entries: Seq<Entry<V>>, key: Seq<u8>) -> bool {
    exists|i: int| 0 <= i < entries.len() && #[trigger] entries[i].key@ == key
}

/// The place of an entry that carries `key`.
pub closed spec fn place_of<V>(entries: Seq<Entry<V>>, key: Seq<u8>) -> int {
    choose|i: int| 0 <= i < entries.len() && #[trigger] entries[i].key@ == key
}

/// The map formed by a sequence of entries.
pub closed spec fn map_of<V: View>(entries: Seq<Entry<V>>) -> Map<Seq<u8>, V::V> {
    Map::new(
        |key: Seq<u8>| holds_key(entries, key),
        |key: Seq<u8>| entries[place_of(entries, key)].value@,
    )
}

proof fn lemma_present<V: View>(entries: Seq<Entry<V>>, i: int)
    requires
        distinct_keys(entries),
        0 <= i < entries.len(),
    ensures
        holds_key(entries, entries[i].key@),
        place_of(entries, entries[i].key@) == i,
        map_of(entries).contains_key(entries[i].key@),
        map_of(entries)[entries[i].key@] == entries[i].value@,
{
    let key = entries[i].key@;
    assert(entries[i].key@ == key);
    let p = place_of(entries, key);
    assert(0 <= p < entries.len() && entries[p].key@ == key);
}

proof fn lemma_absent<V: View>(entries: Seq<Entry<V>>, key: Seq<u8>)
    requires
        forall|i: int| 0 <= i < entries.len() ==> entries[i].key@ != key,
    ensures
        !holds_key(entries, key),
        !map_of(entries).contains_key(key),
{
}

proof fn lemma_push<V: View>(entries: Seq<Entry<V>>, entry: Entry<V>)
    requires
        distinct_keys(entries),
        !holds_key(entries, entry.key@),
    ensures
        distinct_keys(entries.push(entry)),
        map_of(entries.push(entry)) == map_of(entries).insert(entry.key@, entry.value@),
{
    let after = entries.push(entry);
    assert forall|i: int, j: int|
        0 <= i < after.len() && 0 <= j < after.len() && i != j implies after[i].key@
        != after[j].key@ by {
        if i < entries.len() {
            assert(entries[i].key@ == after[i].key@);
        }
        if j < entries.len() {
            assert(entries[j].key@ == after[j].key@);
        }
    }
    assert forall|key: Seq<u8>|
        map_of(after).contains_key(key) == map_of(entries).insert(
            entry.key@,
            entry.value@,
        ).contains_key(key) by {
        if holds_key(entries, key) {
            let p = place_of(entries, key);
            assert(after[p].key@ == key);
        }
        if holds_key(after, key) && key != entry.key@ {
            let p = place_of(after, key);
            assert(entries[p].key@ == key);
        }
        assert(after[entries.len() as int].key@ == entry.key@);
    }
    assert forall|key: Seq<u8>| #[trigger] map_of(after).contains_key(key) implies map_of(
        after,
    )[key] == map_of(entries).insert(entry.key@, entry.value@)[key] by {
        let p = place_of(after, key);
        lemma_present(after, p);
        if p < entries.len() {
            lemma_present(entries, p);
        }
    }
    assert(map_of(after) =~= map_of(entries).insert(entry.key@, entry.value@));
}

proof fn lemma_replace<V: View>(entries: Seq<Entry<V>>, i: int, entry: Entry<V>)
    requires
        distinct_keys(entries),
        0 <= i < entries.len(),
        entries[i].key@ == entry.key@,
    ensures
        distinct_keys(entries.update(i, entry)),
        map_of(entries.update(i, entry)) == map_of(entries).insert(entry.key@, entry.value@),
{
    let after = entries.update(i, entry);
    assert forall|a: int, b: int|
        0 <= a < after.len() && 0 <= b < after.len() && a != b implies after[a].key@
        != after[b].key@ by {
        assert(after[a].key@ == entries[a].key@);
        assert(after[b].key@ == entries[b].key@);
    }
    assert forall|key: Seq<u8>|
        map_of(after).contains_key(key) == map_of(entries).insert(
            entry.key@,
            entry.value@,
        ).contains_key(key) by {
        if holds_key(entries, key) {
            let p = place_of(entries, key);
            assert(after[p].key@ == key);
        }
        if holds_key(after, key) {
            let p = place_of(after, key);
            assert(entries[p].key@ == key);
        }
        assert(after[i].key@ == entry.key@);
    }
    assert forall|key: Seq<u8>| #[trigger] map_of(after).contains_key(key) implies map_of(
        after,
    )[key] == map_of(entries).insert(entry.key@, entry.value@)[key] by {
        let p = place_of(after, key);
        lemma_present(after, p);
        if p != i {
            lemma_present(entries, p);
        }
    }
    assert(map_of(after) =~= map_of(entries).insert(entry.key@, entry.value@));
}

proof fn lemma_remove<V: View>(entries: Seq<Entry<V>>, i: int)
    requires
        distinct_keys(entries),
        0 <= i < entries.len(),
    ensures
        distinct_keys(entries.remove(i)),
        map_of(entries.remove(i)) == map_of(entries).remove(entries[i].key@),
{
    let after = entries.remove(i);
    let gone = entries[i].key@;
    assert forall|a: int, b: int|
        0 <= a < after.len() && 0 <= b < after.len() && a != b implies after[a].key@
        != after[b].key@ by {
        let a0 = if a < i { a } else { a + 1 };
        let b0 = if b < i { b } else { b + 1 };
        assert(after[a].key@ == entries[a0].key@);
        assert(after[b].key@ == entries[b0].key@);
    }
    assert forall|key: Seq<u8>|
        map_of(after).contains_key(key) == map_of(entries).remove(gone).contains_key(key) by {
        if holds_key(entries, key) && key != gone {
            let p = place_of(entries, key);
            let q = if p < i { p } else { p - 1 };
            assert(after[q].key@ == key);
        }
        if holds_key(after, key) {
            let q = place_of(after, key);
            let p = if q < i { q } else { q + 1 };
            assert(entries[p].key@ == key);
            assert(p != i);
            lemma_present(entries, i);
        }
    }
    assert forall|key: Seq<u8>| #[trigger] map_of(after).contains_key(key) implies map_of(
        after,
    )[key] == map_of(entries).remove(gone)[key] by {
        let q = place_of(after, key);
        lemma_present(after, q);
        let p = if q < i { q } else { q + 1 };
        assert(after[q] == entries[p]);
        lemma_present(entries, p);
    }
    assert(map_of(after) =~= map_of(entries).remove(gone));
}

impl<V: View> View for StorageMap<V> {
    type V = Map<Seq<u8>, V::V>;

    closed spec fn view(&self) -> Map<Seq<u8>, V::V> {
        map_of(self.entries@)
    }
}

impl<V> StorageMap<V> {
    #[verifier::type_invariant]
    spec fn keys_are_distinct(self) -> bool {
        distinct_keys(self.entries@)
    }
}

impl<V: View> StorageMap<V> {
    /// A map with no entries.
    pub fn new() -> (map: Self)
        ensures
            map@ == Map::<Seq<u8>, V::V>::empty(),
    {
        let map = StorageMap { entries: Vec::new() };
        proof {
            lemma_absent_all::<V>(map.entries@);
        }
        map
    }

    /// The place of `key` among the entries, if it is stored.
    fn find(&self, key: &[u8]) -> (place: Option<usize>)
        ensures
            match place {
                Some(i) => i < self.entries@.len() && self.entries@[i as int].key@ == key@,
                None => forall|i: int| 0 <= i < self.entries@.len() ==> self.entries@[i].key@ != key@,
            },
    {
        let mut i: usize = 0;
        while i < self.entries.len()
            invariant
                i <= self.entries@.len(),
                forall|j: int| 0 <= j < i ==> self.entries@[j].key@ != key@,
            decreases self.entries@.len() - i,
        {
            if bytes_eq(self.entries[i].key.as_slice(), key) {
                return Some(i);
            }
            i += 1;
        }
        None
    }

    /// Whether a value is stored under `key`.
    pub fn contains_key(&self, key: &[u8]) -> (present: bool)
        ensures
            present == self@.contains_key(key@),
    {
        let place = self.find(key);
        proof {
            use_type_invariant(self);
            match place {
                Some(i) => lemma_present(self.entries@, i as int),
                None => lemma_absent(self.entries@, key@),
            }
        }
        place.is_some()
    }

    /// The value stored under `key`, if any.
    pub fn get(&self, key: &[u8]) -> (found: Option<&V>)
        ensures
            match found {
                Some(value) => self@.contains_key(key@) && self@[key@] == value@,
                None => !self@.contains_key(key@),
            },
    {
        let place = self.find(key);
        proof {
            use_type_invariant(self);
            match place {
                Some(i) => lemma_present(self.entries@, i as int),
                None => lemma_absent(self.entries@, key@),
            }
        }
        match place {
            Some(i) => Some(&self.entries[i].value),
            None => None,
        }
    }

    /// Stores `value` under `key`, in place of whatever was stored there.
    pub fn insert(&mut self, key: Vec<u8>, value: V)
        ensures
            final(self)@ == old(self)@.insert(key@, value@),
    {
        let place = self.find(key.as_slice());
        proof {
            use_type_invariant(&*self);
        }
        // The entries are taken out while they are changed, and an empty
        // vector stands in for them: the invariant has to hold of `self`
        // throughout.
        let mut entries: Vec<Entry<V>> = Vec::new();
        std::mem::swap(&mut entries, &mut self.entries);
        let entry = Entry { key, value };
        match place {
            Some(i) => {
                proof {
                    lemma_replace(entries@, i as int, entry);
                }
                entries.set(i, entry);
            },
            None => {
                proof {
                    lemma_absent(entries@, entry.key@);
                    lemma_push(entries@, entry);
                }
                entries.push(entry);
            },
        }
        self.entries = entries;
    }

    /// Takes out the value stored under `key`, if any.
    pub fn remove(&mut self, key: &[u8]) -> (taken: Option<V>)
        ensures
            final(self)@ == old(self)@.remove(key@),
            match taken {
                Some(value) => old(self)@.contains_key(key@) && old(self)@[key@] == value@,
                None => !old(self)@.contains_key(key@),
            },
    {
        let place = self.find(key);
        proof {
            use_type_invariant(&*self);
        }
        match place {
            Some(i) => {
                let mut entries: Vec<Entry<V>> = Vec::new();
                std::mem::swap(&mut entries, &mut self.entries);
                proof {
                    lemma_present(entries@, i as int);
                    lemma_remove(entries@, i as int);
                }
                let entry = entries.remove(i);
                self.entries = entries;
                Some(entry.value)
            },
            None => {
                proof {
                    lemma_absent(self.entries@, key@);
                    assert(self@ =~= self@.remove(key@));
                }
                None
            },
        }
    }
}

proof fn lemma_absent_all<V: View>(entries: Seq<Entry<V>>)
    requires
        entries.len() == 0,
    ensures
        map_of(entries) == Map::<Seq<u8>, V::V>::empty(),
{
    assert(map_of(entries) =~= Map::<Seq<u8>, V::V>::empty());
}

} // verus!
