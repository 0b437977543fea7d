//! A small table keyed by text that keeps its entries in insertion order,
//! each key at most once: the lobby's sessions and a chat's members, both
//! keyed by fingerprint.
//!
//! A `HashMap<String, _>` would not do here: vstd's specification of
//! `HashMap` holds only for key types that obey its key model, which vstd
//! grants to integers, `bool` and their boxes but not to `String`, so no
//! contract about a fingerprint-keyed `HashMap` could be proved. The
//! table also fixes the order in which sessions and members are visited
//! (insertion order), where a hash map's order is left open: which looking
//! visitor a "look" pairs with, and the order in which a chat's members
//! are told of an event, follow that order.

use vstd::prelude::*;

verus! {

/// True when no key occurs twice among the entries.
pub open spec fn keys_distinct<V>(entries: Seq<(String, V)>) -> bool {
    forall|i: int, j: int|
        0 <= i < entries.len() && 0 <= j < entries.len() && i != j ==> (#[trigger] entries[i]).0@
            != (#[trigger] entries[j]).0@
}

/// True when `key` is the key of some entry.
pub open spec fn has_key<V>(entries: Seq<(String, V)>, key: Seq<char>) -> bool {
    exists|i: int| 0 <= i < entries.len() && (#[trigger] entries[i]).0@ == key
}

/// The position of `key` among distinct keys (meaningful when it is there).
pub open spec fn key_index<V>(entries: Seq<(String, V)>, key: Seq<char>) -> int {
    choose|i: int| 0 <= i < entries.len() && (#[trigger] entries[i]).0@ == key
}

/// The entries after storing `v` under `key`: an entry under that key
/// keeps its place and gets the new value, a new key goes last.
pub open spec fn inserted<V>(entries: Seq<(String, V)>, key: String, v: V) -> Seq<(String, V)> {
    if has_key(entries, key@) {
        entries.update(
            key_index(entries, key@),
            (entries[key_index(entries, key@)].0, v),
        )
    } else {
        entries.push((key, v))
    }
}

/// The entries after taking out the one under `key`, if any.
pub open spec fn removed<V>(entries: Seq<(String, V)>, key: Seq<char>) -> Seq<(String, V)> {
    if has_key(entries, key) {
        entries.remove(key_index(entries, key))
    } else {
        entries
    }
}

/// Among distinct keys, the position found for a key is the one holding it.
pub proof fn lemma_key_index<V>(entries: Seq<(String, V)>, i: int, key: Seq<char>)
    requires
        keys_distinct(entries),
        0 <= i < entries.len(),
        entries[i].0@ == key,
    ensures
        has_key(entries, key),
        key_index(entries, key) == i,
{
    assert(has_key(entries, key));
    let k = key_index(entries, key);
    if k != i {
        assert(entries[k].0@ != entries[i].0@);
    }
}

/// Storing under a key keeps the keys distinct, holds the key afterwards,
/// and holds every other key exactly when it was held before, at the same
/// position.
pub proof fn lemma_inserted<V>(entries: Seq<(String, V)>, key: String, v: V)
    requires
        keys_distinct(entries),
    ensures
        keys_distinct(inserted(entries, key, v)),
        has_key(inserted(entries, key, v), key@),
        inserted(entries, key, v)[key_index(inserted(entries, key, v), key@)].1 == v,
        forall|k: Seq<char>|
            k != key@ ==> (#[trigger] has_key(inserted(entries, key, v), k) == has_key(entries, k)),
        forall|k: Seq<char>|
            k != key@ && has_key(entries, k) ==> #[trigger] key_index(inserted(entries, key, v), k)
                == key_index(entries, k) && inserted(entries, key, v)[key_index(entries, k)]
                == entries[key_index(entries, k)],
{
    let after = inserted(entries, key, v);
    let n = if has_key(entries, key@) {
        key_index(entries, key@)
    } else {
        entries.len() as int
    };
    assert(after.len() == if has_key(entries, key@) {
        entries.len()
    } else {
        entries.len() + 1
    });
    assert(forall|j: int| 0 <= j < after.len() && j != n ==> after[j] == entries[j]);
    assert(after[n].0@ == key@ && after[n].1 == v);
    assert(keys_distinct(after)) by {
        assert forall|a: int, b: int|
            0 <= a < after.len() && 0 <= b < after.len() && a != b implies (#[trigger] after[a]).0@
                != (#[trigger] after[b]).0@ by {
            if a != n && b != n {
            } else if a == n {
                assert(after[b] == entries[b]);
                if entries[b].0@ == key@ {
                    lemma_key_index(entries, b, key@);
                }
            } else {
                assert(after[a] == entries[a]);
                if entries[a].0@ == key@ {
                    lemma_key_index(entries, a, key@);
                }
            }
        }
    }
    lemma_key_index(after, n, key@);
    assert forall|k: Seq<char>| k != key@ implies (#[trigger] has_key(after, k) == has_key(
        entries,
        k,
    )) by {
        if has_key(after, k) {
            let j = key_index(after, k);
            assert(j != n);
            assert(entries[j].0@ == k);
        }
        if has_key(entries, k) {
            let j = key_index(entries, k);
            assert(j != n);
            assert(after[j].0@ == k);
        }
    }
    assert forall|k: Seq<char>| k != key@ && has_key(entries, k) implies #[trigger] key_index(
        after,
        k,
    ) == key_index(entries, k) && after[key_index(entries, k)] == entries[key_index(entries, k)] by {
        let j = key_index(entries, k);
        assert(j != n);
        lemma_key_index(after, j, k);
    }
}

/// Taking out a key keeps the keys distinct, no longer holds the key, and
/// holds every other key exactly when it was held before.
pub proof fn lemma_removed<V>(entries: Seq<(String, V)>, key: Seq<char>)
    requires
        keys_distinct(entries),
    ensures
        keys_distinct(removed(entries, key)),
        !has_key(removed(entries, key), key),
        forall|k: Seq<char>| k != key ==> (#[trigger] has_key(removed(entries, key), k) == has_key(entries, k)),
{
    if has_key(entries, key) {
        let n = key_index(entries, key);
        let after = removed(entries, key);
        assert(after == entries.remove(n));
        assert forall|a: int| 0 <= a < after.len() implies #[trigger] after[a] == entries[if a < n {
            a
        } else {
            a + 1
        }] by {}
        assert(keys_distinct(after)) by {
            assert forall|a: int, b: int|
                0 <= a < after.len() && 0 <= b < after.len() && a != b implies (#[trigger] after[a]).0@
                    != (#[trigger] after[b]).0@ by {
                let a2 = if a < n { a } else { a + 1 };
                let b2 = if b < n { b } else { b + 1 };
                assert(after[a] == entries[a2]);
                assert(after[b] == entries[b2]);
            }
        }
        if has_key(after, key) {
            let j = key_index(after, key);
            let j2 = if j < n { j } else { j + 1 };
            assert(after[j] == entries[j2]);
            assert(entries[j2].0@ != entries[n].0@);
        }
        assert forall|k: Seq<char>| k != key implies (#[trigger] has_key(after, k) == has_key(
            entries,
            k,
        )) by {
            if has_key(after, k) {
                let j = key_index(after, k);
                let j2 = if j < n { j } else { j + 1 };
                assert(after[j] == entries[j2]);
            }
            if has_key(entries, k) {
                let j = key_index(entries, k);
                assert(j != n);
                let j2 = if j < n { j } else { j - 1 };
                assert(after[j2] == entries[j]);
            }
        }
    }
}

/// Entries that keep every key they had, in place, keep their keys distinct.
pub proof fn lemma_same_keys<V>(before: Seq<(String, V)>, after: Seq<(String, V)>)
    requires
        keys_distinct(before),
        after.len() == before.len(),
        forall|j: int| 0 <= j < before.len() ==> (#[trigger] after[j]).0 == before[j].0,
    ensures
        keys_distinct(after),
{
    assert forall|a: int, b: int|
        0 <= a < after.len() && 0 <= b < after.len() && a != b implies (#[trigger] after[a]).0@
            != (#[trigger] after[b]).0@ by {
        assert(after[a].0 == before[a].0);
        assert(after[b].0 == before[b].0);
    }
}

/// Entries keyed by text, in the order they were first inserted.
pub struct Table<V> {
    entries: Vec<(String, V)>,
}

impl<V> View for Table<V> {
    type V = Seq<(String, V)>;

    /// The entries in order.
    closed spec fn view(&self) -> Seq<(String, V)> {
        self.entries@
    }
}

impl<V> Table<V> {
    #[verifier::type_invariant]
    spec fn distinct(self) -> bool {
        keys_distinct(self.entries@)
    }

    /// An empty table.
    pub fn new() -> (t: Self)
        ensures
            t@ == Seq::<(String, V)>::empty(),
            keys_distinct(t@),
    {
        Table { entries: Vec::new() }
    }

    pub fn len(&self) -> (n: usize)
        ensures
            n == self@.len(),
            keys_distinct(self@),
    {
        proof {
            use_type_invariant(self);
        }
        self.entries.len()
    }

    /// The position of `key`, if the table holds it.
    pub fn find(&self, key: &String) -> (r: Option<usize>)
        ensures
            match r {
                Some(i) => i < self@.len() && self@[i as int].0@ == key@,
                None => !has_key(self@, key@),
            },
            keys_distinct(self@),
    {
        proof {
            use_type_invariant(self);
        }
        let mut i: usize = 0;
        while i < self.entries.len()
            invariant
                i <= self.entries@.len(),
                forall|j: int| 0 <= j < i ==> (#[trigger] self.entries@[j]).0@ != key@,
                keys_distinct(self.entries@),
            decreases self.entries@.len() - i,
        {
            if self.entries[i].0 == *key {
                return Some(i);
            }
            i = i + 1;
        }
        None
    }

    /// The key at position `i`.
    pub fn key_at(&self, i: usize) -> (k: &String)
        requires
            i < self@.len(),
        ensures
            *k == self@[i as int].0,
    {
        &self.entries[i].0
    }

    /// The value at position `i`.
    pub fn value_at(&self, i: usize) -> (v: &V)
        requires
            i < self@.len(),
        ensures
            *v == self@[i as int].1,
    {
        &self.entries[i].1
    }

    /// Replaces the value at position `i`, keeping its key and place.
    pub fn set_value_at(&mut self, i: usize, v: V)
        requires
            i < old(self)@.len(),
        ensures
            final(self)@ == old(self)@.update(i as int, (old(self)@[i as int].0, v)),
            keys_distinct(final(self)@),
    {
        proof {
            use_type_invariant(&*self);
        }
        let ghost before = self.entries@;
        let k = self.entries[i].0.clone();
        let mut entries: Vec<(String, V)> = Vec::new();
        std::mem::swap(&mut entries, &mut self.entries);
        entries.set(i, (k, v));
        proof {
            lemma_same_keys(before, entries@);
        }
        self.entries = entries;
    }

    /// Stores `v` under `key`: an entry already under that key keeps its
    /// place and gets the new value, and its old value is handed back;
    /// otherwise the entry goes last.
    pub fn insert(&mut self, key: String, v: V) -> (r: Option<V>)
        ensures
            final(self)@ == inserted(old(self)@, key, v),
            keys_distinct(final(self)@),
            match r {
                Some(old_v) => has_key(old(self)@, key@) && old_v == old(self)@[key_index(
                    old(self)@,
                    key@,
                )].1,
                None => !has_key(old(self)@, key@),
            },
    {
        proof {
            use_type_invariant(&*self);
        }
        let ghost before = self.entries@;
        let found = self.find(&key);
        let mut entries: Vec<(String, V)> = Vec::new();
        std::mem::swap(&mut entries, &mut self.entries);
        let r = match found {
            Some(i) => {
                proof {
                    lemma_key_index(before, i as int, key@);
                }
                let k = entries[i].0.clone();
                let old_entry = entries.remove(i);
                entries.insert(i, (k, v));
                Some(old_entry.1)
            },
            None => {
                entries.push((key, v));
                None
            },
        };
        proof {
            assert(entries@ =~= inserted(before, key, v));
            lemma_inserted(before, key, v);
        }
        self.entries = entries;
        r
    }

    /// Takes out the entry under `key`, if any; the others keep their order.
    pub fn remove_entry(&mut self, key: &String) -> (r: Option<(String, V)>)
        ensures
            final(self)@ == removed(old(self)@, key@),
            keys_distinct(final(self)@),
            match r {
                Some(e) => has_key(old(self)@, key@) && e == old(self)@[key_index(old(self)@, key@)],
                None => !has_key(old(self)@, key@),
            },
    {
        proof {
            use_type_invariant(&*self);
        }
        let ghost before = self.entries@;
        match self.find(key) {
            Some(i) => {
                proof {
                    lemma_key_index(before, i as int, key@);
                    lemma_removed(before, key@);
                }
                let mut entries: Vec<(String, V)> = Vec::new();
                std::mem::swap(&mut entries, &mut self.entries);
                let e = entries.remove(i);
                self.entries = entries;
                Some(e)
            },
            None => None,
        }
    }
}

} // verus!
