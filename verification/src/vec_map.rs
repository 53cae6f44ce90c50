//! An association list: a map kept as a vector of entries in insertion order.
//!
//! Keys are compared by their ghost identity, an entry is found by the first
//! key that matches, and `insert` replaces in place, so that a map built by
//! this module's functions alone never holds a key twice.

use vstd::prelude::*;

verus! {

/// A key of an association list.
pub trait Key: Sized {
    /// What two equal keys have in common.
    type Id;

    /// The identity of the key.
    spec fn id(&self) -> Self::Id;

    /// Whether two keys have the same identity.
    fn same(&self, other: &Self) -> (r: bool)
        ensures
            r == (self.id() == other.id()),
    ;
}

/// The first index at which `id` occurs, the length where it does not.
pub open spec fn first_index<K: Key, V>(s: Seq<(K, V)>, id: K::Id) -> int
    decreases s.len(),
{
    if s.len() == 0 {
        0
    } else if s[0].0.id() == id {
        0
    } else {
        1 + first_index(s.drop_first(), id)
    }
}

/// Whether `id` occurs.
pub open spec fn present<K: Key, V>(s: Seq<(K, V)>, id: K::Id) -> bool {
    first_index(s, id) < s.len()
}

/// The value of the first entry whose key is `id`.
pub open spec fn lookup<K: Key, V>(s: Seq<(K, V)>, id: K::Id) -> Option<V> {
    if present(s, id) {
        Some(s[first_index(s, id)].1)
    } else {
        None
    }
}

/// No identity occurs twice.
pub open spec fn distinct<K: Key, V>(s: Seq<(K, V)>) -> bool {
    forall|i: int, j: int| 0 <= i < j < s.len() ==> (#[trigger] s[i]).0.id() != (#[trigger] s[j]).0.id()
}

/// The entries after `value` was put under `key`: in place of the first value
/// under that identity, or as a new entry at the end.
pub open spec fn spec_insert<K: Key, V>(s: Seq<(K, V)>, key: K, value: V) -> Seq<(K, V)> {
    if present(s, key.id()) {
        let i = first_index(s, key.id());
        s.update(i, (s[i].0, value))
    } else {
        s.push((key, value))
    }
}

/// The entries without the first one under `id`.
pub open spec fn spec_remove<K: Key, V>(s: Seq<(K, V)>, id: K::Id) -> Seq<(K, V)> {
    if present(s, id) {
        s.remove(first_index(s, id))
    } else {
        s
    }
}

/// The first index is within bounds, names a matching entry where there is
/// one, and no earlier entry matches.
pub proof fn lemma_first_index<K: Key, V>(s: Seq<(K, V)>, id: K::Id)
    ensures
        0 <= first_index(s, id) <= s.len(),
        first_index(s, id) < s.len() ==> s[first_index(s, id)].0.id() == id,
        forall|j: int| 0 <= j < first_index(s, id) ==> (#[trigger] s[j]).0.id() != id,
    decreases s.len(),
{
    if s.len() == 0 {
    } else if s[0].0.id() == id {
    } else {
        let t = s.drop_first();
        lemma_first_index(t, id);
        assert forall|j: int| 0 <= j < first_index(s, id) implies (#[trigger] s[j]).0.id() != id by {
            if j > 0 {
                assert(s[j] == t[j - 1]);
            }
        }
    }
}

/// An index with a matching entry and none before it is the first index.
pub proof fn lemma_first_index_is<K: Key, V>(s: Seq<(K, V)>, id: K::Id, i: int)
    requires
        0 <= i <= s.len(),
        i < s.len() ==> s[i].0.id() == id,
        forall|j: int| 0 <= j < i ==> (#[trigger] s[j]).0.id() != id,
    ensures
        first_index(s, id) == i,
{
    lemma_first_index(s, id);
    let f = first_index(s, id);
    if f < i {
        assert(s[f].0.id() == id);
    } else if f > i {
        assert(s[i].0.id() == id);
    }
}

/// Two sequences with the same keys in the same places find a key at the same
/// index.
pub proof fn lemma_first_index_same_keys<K: Key, V, W>(s: Seq<(K, V)>, t: Seq<(K, W)>, id: K::Id)
    requires
        s.len() == t.len(),
        forall|i: int| 0 <= i < s.len() ==> (#[trigger] s[i]).0.id() == t[i].0.id(),
    ensures
        first_index(s, id) == first_index(t, id),
{
    lemma_first_index(s, id);
    let f = first_index(s, id);
    assert forall|j: int| 0 <= j < f implies (#[trigger] t[j]).0.id() != id by {
        assert(s[j].0.id() != id);
    }
    if f < s.len() {
        assert(s[f].0.id() == t[f].0.id());
    }
    lemma_first_index_is(t, id, f);
}

/// Replacing the value of an entry changes the lookup of its key alone.
pub proof fn lemma_lookup_update<K: Key, V>(s: Seq<(K, V)>, i: int, v: V, id: K::Id)
    requires
        0 <= i < s.len(),
        first_index(s, s[i].0.id()) == i,
    ensures
        lookup(s.update(i, (s[i].0, v)), id) == if id == s[i].0.id() {
            Some(v)
        } else {
            lookup(s, id)
        },
        first_index(s.update(i, (s[i].0, v)), id) == first_index(s, id),
{
    let t = s.update(i, (s[i].0, v));
    lemma_first_index(s, id);
    let f = first_index(s, id);
    assert forall|j: int| 0 <= j < f implies (#[trigger] t[j]).0.id() != id by {
        assert(s[j].0.id() != id);
    }
    lemma_first_index_is(t, id, f);
}

/// A new entry at the end is found under its key if that was absent, and
/// changes no other lookup.
pub proof fn lemma_lookup_push<K: Key, V>(s: Seq<(K, V)>, k: K, v: V, id: K::Id)
    ensures
        lookup(s.push((k, v)), id) == if present(s, id) {
            lookup(s, id)
        } else if id == k.id() {
            Some(v)
        } else {
            None
        },
{
    let t = s.push((k, v));
    lemma_first_index(s, id);
    let f = first_index(s, id);
    if f < s.len() {
        assert(t[f] == s[f]);
        assert forall|j: int| 0 <= j < f implies (#[trigger] t[j]).0.id() != id by {
            assert(t[j] == s[j]);
        }
        lemma_first_index_is(t, id, f);
    } else if id == k.id() {
        assert forall|j: int| 0 <= j < s.len() implies (#[trigger] t[j]).0.id() != id by {
            assert(t[j] == s[j]);
        }
        lemma_first_index_is(t, id, s.len() as int);
    } else {
        assert forall|j: int| 0 <= j < t.len() implies (#[trigger] t[j]).0.id() != id by {
            if j < s.len() {
                assert(t[j] == s[j]);
            }
        }
        lemma_first_index_is(t, id, t.len() as int);
    }
}

/// Without the first entry of a key, other keys are found as before; the key
/// itself is gone where no identity occurred twice.
pub proof fn lemma_lookup_remove<K: Key, V>(s: Seq<(K, V)>, i: int, id: K::Id)
    requires
        0 <= i < s.len(),
        first_index(s, s[i].0.id()) == i,
    ensures
        id != s[i].0.id() ==> lookup(s.remove(i), id) == lookup(s, id),
        distinct(s) ==> !present(s.remove(i), s[i].0.id()),
        distinct(s) ==> distinct(s.remove(i)),
{
    let t = s.remove(i);
    let key = s[i].0.id();
    lemma_first_index(s, id);
    let f = first_index(s, id);
    if id != key {
        if f < s.len() {
            let g = if f < i {
                f
            } else {
                f - 1
            };
            assert(t[g] == s[f]);
            assert forall|j: int| 0 <= j < g implies (#[trigger] t[j]).0.id() != id by {
                if j < i {
                    assert(t[j] == s[j]);
                } else {
                    assert(t[j] == s[j + 1]);
                }
            }
            lemma_first_index_is(t, id, g);
        } else {
            assert forall|j: int| 0 <= j < t.len() implies (#[trigger] t[j]).0.id() != id by {
                if j < i {
                    assert(t[j] == s[j]);
                } else {
                    assert(t[j] == s[j + 1]);
                }
            }
            lemma_first_index_is(t, id, t.len() as int);
        }
    }
    if distinct(s) {
        assert forall|j: int| 0 <= j < t.len() implies (#[trigger] t[j]).0.id() != key by {
            if j < i {
                assert(t[j] == s[j]);
            } else {
                assert(t[j] == s[j + 1]);
            }
        }
        lemma_first_index_is(t, key, t.len() as int);
        assert forall|a: int, b: int| 0 <= a < b < t.len() implies (#[trigger] t[a]).0.id() != (#[trigger] t[b]).0.id() by {
            let a2 = if a < i {
                a
            } else {
                a + 1
            };
            let b2 = if b < i {
                b
            } else {
                b + 1
            };
            assert(t[a] == s[a2]);
            assert(t[b] == s[b2]);
        }
    }
}

/// Replacing a value in place and adding an absent key keep the identities
/// distinct.
pub proof fn lemma_distinct_kept<K: Key, V>(s: Seq<(K, V)>, i: int, k: K, v: V)
    requires
        distinct(s),
    ensures
        0 <= i < s.len() ==> distinct(s.update(i, (s[i].0, v))),
        !present(s, k.id()) ==> distinct(s.push((k, v))),
{
    if 0 <= i < s.len() {
        let t = s.update(i, (s[i].0, v));
        assert forall|a: int, b: int| 0 <= a < b < t.len() implies (#[trigger] t[a]).0.id() != (#[trigger] t[b]).0.id() by {
            assert(t[a].0.id() == s[a].0.id());
            assert(t[b].0.id() == s[b].0.id());
        }
    }
    if !present(s, k.id()) {
        let t = s.push((k, v));
        lemma_first_index(s, k.id());
        assert forall|a: int, b: int| 0 <= a < b < t.len() implies (#[trigger] t[a]).0.id() != (#[trigger] t[b]).0.id() by {
            assert(t[a] == s[a]);
            if b < s.len() {
                assert(t[b] == s[b]);
            } else {
                assert(s[a].0.id() != k.id());
            }
        }
    }
}

/// After a value was put under a key, the key finds the value and every other
/// key finds what it found before.
pub proof fn lemma_lookup_insert<K: Key, V>(s: Seq<(K, V)>, key: K, value: V, id: K::Id)
    ensures
        lookup(spec_insert(s, key, value), id) == if id == key.id() {
            Some(value)
        } else {
            lookup(s, id)
        },
{
    lemma_first_index(s, key.id());
    if present(s, key.id()) {
        lemma_lookup_update(s, first_index(s, key.id()), value, id);
    } else {
        lemma_lookup_push(s, key, value, id);
    }
}

/// After the first entry of a key was taken out, every other key finds what
/// it found before.
pub proof fn lemma_lookup_removed<K: Key, V>(s: Seq<(K, V)>, removed: K::Id, id: K::Id)
    requires
        id != removed,
    ensures
        lookup(spec_remove(s, removed), id) == lookup(s, id),
{
    lemma_first_index(s, removed);
    if present(s, removed) {
        lemma_lookup_remove(s, first_index(s, removed), id);
    }
}

/// Putting a value under a key twice leaves what putting the second value
/// alone leaves.
pub proof fn lemma_insert_twice<K: Key, V>(s: Seq<(K, V)>, key: K, first: V, second: V)
    ensures
        spec_insert(spec_insert(s, key, first), key, second) == spec_insert(s, key, second),
{
    lemma_first_index(s, key.id());
    let i = first_index(s, key.id());
    let once = spec_insert(s, key, first);
    if present(s, key.id()) {
        lemma_lookup_update(s, i, first, key.id());
        assert(first_index(once, key.id()) == i);
        assert(once.update(i, (once[i].0, second)) =~= s.update(i, (s[i].0, second)));
    } else {
        assert forall|j: int| 0 <= j < s.len() implies (#[trigger] once[j]).0.id() != key.id() by {
            assert(once[j] == s[j]);
        }
        lemma_first_index_is(once, key.id(), s.len() as int);
        assert(once.update(s.len() as int, (once[s.len() as int].0, second)) =~= s.push((key, second)));
    }
}

/// Taking out an entry that was just added at the end, under a key that was
/// absent, leaves the entries as they were.
pub proof fn lemma_remove_pushed<K: Key, V>(s: Seq<(K, V)>, key: K, value: V)
    requires
        !present(s, key.id()),
    ensures
        spec_remove(s.push((key, value)), key.id()) == s,
{
    lemma_first_index(s, key.id());
    let pushed = s.push((key, value));
    assert forall|j: int| 0 <= j < s.len() implies (#[trigger] pushed[j]).0.id() != key.id() by {
        assert(pushed[j] == s[j]);
    }
    lemma_first_index_is(pushed, key.id(), s.len() as int);
    assert(pushed.remove(s.len() as int) =~= s);
}

/// Putting a value under a key keeps the identities distinct.
pub proof fn lemma_distinct_insert<K: Key, V>(s: Seq<(K, V)>, key: K, value: V)
    requires
        distinct(s),
    ensures
        distinct(spec_insert(s, key, value)),
{
    lemma_first_index(s, key.id());
    lemma_distinct_kept(s, first_index(s, key.id()), key, value);
}

/// Taking the entry of a key out keeps the identities distinct, and the key
/// is gone.
pub proof fn lemma_distinct_remove<K: Key, V>(s: Seq<(K, V)>, id: K::Id)
    requires
        distinct(s),
    ensures
        distinct(spec_remove(s, id)),
        !present(spec_remove(s, id), id),
{
    lemma_first_index(s, id);
    if present(s, id) {
        lemma_lookup_remove(s, first_index(s, id), id);
    }
}

/// Putting a value under the key of an entry that was just added at the end,
/// under a key that was absent, leaves the entries with the value at the
/// end.
pub proof fn lemma_insert_pushed<K: Key, V>(s: Seq<(K, V)>, key: K, first: V, second: V)
    requires
        !present(s, key.id()),
    ensures
        spec_insert(s.push((key, first)), key, second) == s.push((key, second)),
        lookup(s.push((key, first)), key.id()) == Some(first),
{
    lemma_first_index(s, key.id());
    let pushed = s.push((key, first));
    assert forall|j: int| 0 <= j < s.len() implies (#[trigger] pushed[j]).0.id() != key.id() by {
        assert(pushed[j] == s[j]);
    }
    lemma_first_index_is(pushed, key.id(), s.len() as int);
    assert(pushed.update(s.len() as int, (pushed[s.len() as int].0, second)) =~= s.push((key, second)));
}

/// A map from keys to values, as a vector of entries.
#[derive(Debug)]
pub struct VecMap<K, V> {
    pub entries: Vec<(K, V)>,
}

impl<K: Key, V> VecMap<K, V> {
    /// The value under an identity.
    pub open spec fn spec_get(&self, id: K::Id) -> Option<V> {
        lookup(self.entries@, id)
    }

    /// No identity occurs twice.
    pub open spec fn wf(&self) -> bool {
        distinct(self.entries@)
    }

    /// The empty map.
    pub fn new() -> (r: Self)
        ensures
            r.entries@ == Seq::<(K, V)>::empty(),
            r.wf(),
    {
        VecMap { entries: Vec::new() }
    }

    /// The number of entries.
    pub fn len(&self) -> (r: usize)
        ensures
            r == self.entries@.len(),
    {
        self.entries.len()
    }

    /// The index of the first entry under the key, the length where there is
    /// none.
    pub fn position(&self, key: &K) -> (r: usize)
        ensures
            r == first_index(self.entries@, key.id()),
            r <= self.entries@.len(),
    {
        let mut i: usize = 0;
        while i < self.entries.len()
            invariant
                i <= self.entries@.len(),
                forall|j: int| 0 <= j < i ==> (#[trigger] self.entries@[j]).0.id() != key.id(),
            decreases self.entries@.len() - i,
        {
            if self.entries[i].0.same(key) {
                proof {
                    lemma_first_index_is(self.entries@, key.id(), i as int);
                }
                return i;
            }
            i = i + 1;
        }
        proof {
            lemma_first_index_is(self.entries@, key.id(), i as int);
        }
        i
    }

    /// Whether the key is present.
    pub fn contains_key(&self, key: &K) -> (r: bool)
        ensures
            r == present(self.entries@, key.id()),
    {
        self.position(key) < self.entries.len()
    }

    /// The value under the key.
    pub fn get(&self, key: &K) -> (r: Option<&V>)
        ensures
            r matches Some(v) ==> self.spec_get(key.id()) == Some(*v),
            r is None ==> self.spec_get(key.id()) is None,
    {
        let i = self.position(key);
        if i < self.entries.len() {
            Some(&self.entries[i].1)
        } else {
            None
        }
    }

    /// Puts the value under the key: in place of the value that was there, or
    /// as a new entry at the end.
    pub fn insert(&mut self, key: K, value: V)
        ensures
            final(self).entries@ == spec_insert(old(self).entries@, key, value),
            forall|id: K::Id| #[trigger]
                lookup(final(self).entries@, id) == if id == key.id() {
                    Some(value)
                } else {
                    lookup(old(self).entries@, id)
                },
            old(self).wf() ==> final(self).wf(),
    {
        let i = self.position(&key);
        proof {
            lemma_first_index(self.entries@, key.id());
            if old(self).wf() {
                lemma_distinct_kept(self.entries@, i as int, key, value);
            }
            assert forall|id: K::Id|
                lookup(
                    if present(self.entries@, key.id()) {
                        self.entries@.update(i as int, (self.entries@[i as int].0, value))
                    } else {
                        self.entries@.push((key, value))
                    },
                    id,
                ) == if id == key.id() {
                    Some(value)
                } else {
                    lookup(self.entries@, id)
                } by {
                if present(self.entries@, key.id()) {
                    lemma_lookup_update(self.entries@, i as int, value, id);
                } else {
                    lemma_lookup_push(self.entries@, key, value, id);
                }
            }
        }
        if i < self.entries.len() {
            self.entries[i].1 = value;
        } else {
            self.entries.push((key, value));
        }
    }

    /// Takes the first entry under the key out and returns its value.
    pub fn remove(&mut self, key: &K) -> (r: Option<V>)
        ensures
            r == old(self).spec_get(key.id()),
            final(self).entries@ == spec_remove(old(self).entries@, key.id()),
            forall|id: K::Id|
                id != key.id() ==> #[trigger] lookup(final(self).entries@, id) == lookup(old(self).entries@, id),
            old(self).wf() ==> final(self).wf() && final(self).spec_get(key.id()) is None,
    {
        let i = self.position(key);
        if i < self.entries.len() {
            proof {
                lemma_first_index(self.entries@, key.id());
                assert forall|id: K::Id| id != key.id() implies lookup(self.entries@.remove(i as int), id) == lookup(
                    self.entries@,
                    id,
                ) by {
                    lemma_lookup_remove(self.entries@, i as int, id);
                }
                lemma_lookup_remove(self.entries@, i as int, key.id());
            }
            let e = self.entries.remove(i);
            Some(e.1)
        } else {
            None
        }
    }

    /// Removes every entry.
    pub fn clear(&mut self)
        ensures
            final(self).entries@ == Seq::<(K, V)>::empty(),
            final(self).wf(),
    {
        self.entries.clear();
    }
}

} // verus!
