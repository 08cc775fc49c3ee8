//! A store of records, each under its own key.
//!
//! The store is a list of entries in which no key occurs twice. Its view is the
//! map from keys to values; `total` adds up a weight over all entries, which is
//! how the ledger speaks of the sum of all balances.

use vstd::prelude::*;

verus! {

/// A key of a store: a plain value whose equality can be computed.
pub trait Key: Sized + Copy {
    /// Whether the two keys are equal.
    fn same(&self, other: &Self) -> (r: bool)
        ensures
            r == (*self == *other),
    ;
}

/// One record of a store with the key it is kept under.
#[derive(Clone, Debug, PartialEq, Eq)]
struct Entry<K, V> {
    key: K,
    value: V,
}

/// Whether some entry of the list has the key.
spec fn has_key<K, V>(s: Seq<Entry<K, V>>, key: K) -> bool {
    exists|i: int| 0 <= i < s.len() && (#[trigger] s[i]).key == key
}

/// The place of an entry with the key.
spec fn slot_of<K, V>(s: Seq<Entry<K, V>>, key: K) -> int {
    choose|i: int| 0 <= i < s.len() && (#[trigger] s[i]).key == key
}

/// No key occurs twice in the list.
spec fn distinct<K, V>(s: Seq<Entry<K, V>>) -> bool {
    forall|i: int, j: int| 0 <= i < j < s.len() ==> (#[trigger] s[i]).key != (#[trigger] s[j]).key
}

/// The map that the list of entries stands for.
spec fn as_map<K, V>(s: Seq<Entry<K, V>>) -> Map<K, V> {
    Map::new(|key: K| has_key(s, key), |key: K| s[slot_of(s, key)].value)
}

/// The sum of the weights of all entries.
spec fn weigh<K, V>(s: Seq<Entry<K, V>>, weight: spec_fn(K, V) -> nat) -> nat
    decreases s.len(),
{
    if s.len() == 0 {
        0
    } else {
        weigh(s.drop_last(), weight) + weight(s.last().key, s.last().value)
    }
}

proof fn lemma_slot<K, V>(s: Seq<Entry<K, V>>, i: int)
    requires
        distinct(s),
        0 <= i < s.len(),
    ensures
        has_key(s, s[i].key),
        slot_of(s, s[i].key) == i,
{
    let j = slot_of(s, s[i].key);
    assert(s[j].key == s[i].key);
    if j < i {
        assert(s[j].key != s[i].key);
    }
    if i < j {
        assert(s[i].key != s[j].key);
    }
}

proof fn lemma_push<K, V>(s: Seq<Entry<K, V>>, e: Entry<K, V>)
    requires
        distinct(s),
        !has_key(s, e.key),
    ensures
        distinct(s.push(e)),
        as_map(s.push(e)) == as_map(s).insert(e.key, e.value),
{
    let t = s.push(e);
    assert forall|i: int, j: int| 0 <= i < j < t.len() implies (#[trigger] t[i]).key != (
    #[trigger] t[j]).key by {
        if j == s.len() {
            assert(s[i].key != e.key);
        } else {
            assert(s[i].key != s[j].key);
        }
    }
    assert forall|key: K| has_key(t, key) <==> (key == e.key || has_key(s, key)) by {
        if has_key(t, key) {
            let i = slot_of(t, key);
            if i < s.len() {
                assert(s[i].key == key);
            }
        }
        if key == e.key {
            assert(t[s.len() as int].key == key);
        }
        if has_key(s, key) {
            let i = slot_of(s, key);
            assert(t[i].key == key);
        }
    }
    assert forall|key: K| has_key(t, key) implies t[slot_of(t, key)].value == as_map(s).insert(
        e.key,
        e.value,
    )[key] by {
        let i = slot_of(t, key);
        lemma_slot(t, i);
        if i < s.len() {
            lemma_slot(s, i);
        }
    }
    assert(as_map(t) =~= as_map(s).insert(e.key, e.value));
}

proof fn lemma_update<K, V>(s: Seq<Entry<K, V>>, i: int, e: Entry<K, V>)
    requires
        distinct(s),
        0 <= i < s.len(),
        s[i].key == e.key,
    ensures
        distinct(s.update(i, e)),
        as_map(s.update(i, e)) == as_map(s).insert(e.key, e.value),
        as_map(s).contains_key(e.key),
        as_map(s)[e.key] == s[i].value,
{
    let t = s.update(i, e);
    lemma_slot(s, i);
    assert forall|a: int, b: int| 0 <= a < b < t.len() implies (#[trigger] t[a]).key != (
    #[trigger] t[b]).key by {
        assert(s[a].key != s[b].key);
    }
    assert forall|key: K| has_key(t, key) <==> has_key(s, key) by {
        if has_key(t, key) {
            let j = slot_of(t, key);
            assert(s[j].key == key);
        }
        if has_key(s, key) {
            let j = slot_of(s, key);
            assert(t[j].key == key);
        }
    }
    assert forall|key: K| has_key(t, key) implies t[slot_of(t, key)].value == as_map(s).insert(
        e.key,
        e.value,
    )[key] by {
        let j = slot_of(t, key);
        lemma_slot(t, j);
        lemma_slot(s, j);
    }
    assert(as_map(t) =~= as_map(s).insert(e.key, e.value));
}

proof fn lemma_remove<K, V>(s: Seq<Entry<K, V>>, i: int)
    requires
        distinct(s),
        0 <= i < s.len(),
    ensures
        distinct(s.remove(i)),
        as_map(s.remove(i)) == as_map(s).remove(s[i].key),
        as_map(s).contains_key(s[i].key),
        as_map(s)[s[i].key] == s[i].value,
{
    let t = s.remove(i);
    lemma_slot(s, i);
    assert forall|a: int, b: int| 0 <= a < b < t.len() implies (#[trigger] t[a]).key != (
    #[trigger] t[b]).key by {
        let a0 = if a < i { a } else { a + 1 };
        let b0 = if b < i { b } else { b + 1 };
        assert(s[a0].key != s[b0].key);
    }
    assert forall|key: K| has_key(t, key) <==> (key != s[i].key && has_key(s, key)) by {
        if has_key(t, key) {
            let j = slot_of(t, key);
            let j0 = if j < i { j } else { j + 1 };
            assert(s[j0].key == key);
            lemma_slot(s, j0);
        }
        if key != s[i].key && has_key(s, key) {
            let j = slot_of(s, key);
            let j1 = if j < i { j } else { j - 1 };
            assert(t[j1].key == key);
        }
    }
    assert forall|key: K| has_key(t, key) implies t[slot_of(t, key)].value == as_map(s)[key] by {
        let j = slot_of(t, key);
        let j0 = if j < i { j } else { j + 1 };
        lemma_slot(t, j);
        lemma_slot(s, j0);
    }
    assert(as_map(t) =~= as_map(s).remove(s[i].key));
}

proof fn lemma_weigh_push<K, V>(s: Seq<Entry<K, V>>, e: Entry<K, V>, weight: spec_fn(K, V) -> nat)
    ensures
        weigh(s.push(e), weight) == weigh(s, weight) + weight(e.key, e.value),
{
    assert(s.push(e).drop_last() =~= s);
}

proof fn lemma_weigh_update<K, V>(
    s: Seq<Entry<K, V>>,
    i: int,
    e: Entry<K, V>,
    weight: spec_fn(K, V) -> nat,
)
    requires
        0 <= i < s.len(),
    ensures
        weigh(s.update(i, e), weight) + weight(s[i].key, s[i].value) == weigh(s, weight) + weight(
            e.key,
            e.value,
        ),
    decreases s.len(),
{
    let t = s.update(i, e);
    if i == s.len() - 1 {
        assert(t.drop_last() =~= s.drop_last());
    } else {
        assert(t.drop_last() =~= s.drop_last().update(i, e));
        lemma_weigh_update(s.drop_last(), i, e, weight);
    }
}

proof fn lemma_weigh_remove<K, V>(s: Seq<Entry<K, V>>, i: int, weight: spec_fn(K, V) -> nat)
    requires
        0 <= i < s.len(),
    ensures
        weigh(s.remove(i), weight) + weight(s[i].key, s[i].value) == weigh(s, weight),
    decreases s.len(),
{
    let t = s.remove(i);
    if i == s.len() - 1 {
        assert(t =~= s.drop_last());
    } else {
        assert(t.drop_last() =~= s.drop_last().remove(i));
        lemma_weigh_remove(s.drop_last(), i, weight);
    }
}

proof fn lemma_weigh_bound<K, V>(s: Seq<Entry<K, V>>, i: int, weight: spec_fn(K, V) -> nat)
    requires
        0 <= i < s.len(),
    ensures
        weight(s[i].key, s[i].value) <= weigh(s, weight),
    decreases s.len(),
{
    if i < s.len() - 1 {
        lemma_weigh_bound(s.drop_last(), i, weight);
    }
}

/// Records under keys, with at most one record for a key.
#[derive(Clone, Debug, PartialEq, Eq)]
pub struct Store<K, V> {
    entries: Vec<Entry<K, V>>,
}

impl<K: Key, V> View for Store<K, V> {
    type V = Map<K, V>;

    closed spec fn view(&self) -> Map<K, V> {
        as_map(self.entries@)
    }
}

impl<K: Key, V> Store<K, V> {
    /// No key is held twice.
    pub closed spec fn wf(&self) -> bool {
        distinct(self.entries@)
    }

    /// The sum of `weight` over all records of the store.
    pub closed spec fn total(&self, weight: spec_fn(K, V) -> nat) -> nat {
        weigh(self.entries@, weight)
    }

    /// The weight of the record under `key`, and nothing where there is none.
    pub open spec fn share(&self, weight: spec_fn(K, V) -> nat, key: K) -> nat {
        if self@.contains_key(key) {
            weight(key, self@[key])
        } else {
            0
        }
    }

    /// A store without records.
    pub fn new() -> (store: Store<K, V>)
        ensures
            store.wf(),
            store@ == Map::<K, V>::empty(),
            forall|weight: spec_fn(K, V) -> nat| #[trigger] store.total(weight) == 0,
    {
        let store = Store { entries: Vec::new() };
        assert(store@ =~= Map::<K, V>::empty());
        store
    }

    fn position(&self, key: &K) -> (r: Option<usize>)
        ensures
            match r {
                Some(i) => i < self.entries@.len() && self.entries@[i as int].key == *key,
                None => !has_key(self.entries@, *key),
            },
    {
        let mut i: usize = 0;
        while i < self.entries.len()
            invariant
                i <= self.entries@.len(),
                forall|j: int| 0 <= j < i ==> (#[trigger] self.entries@[j]).key != *key,
            decreases self.entries@.len() - i,
        {
            if self.entries[i].key.same(key) {
                return Some(i);
            }
            i += 1;
        }
        None
    }

    /// Whether a record is kept under `key`.
    pub fn contains_key(&self, key: &K) -> (r: bool)
        ensures
            r == self@.contains_key(*key),
    {
        self.position(key).is_some()
    }

    /// The record under `key`.
    pub fn get(&self, key: &K) -> (r: Option<&V>)
        requires
            self.wf(),
        ensures
            match r {
                Some(value) => self@.contains_key(*key) && *value == self@[*key],
                None => !self@.contains_key(*key),
            },
    {
        match self.position(key) {
            Some(i) => {
                proof {
                    lemma_slot(self.entries@, i as int);
                }
                Some(&self.entries[i].value)
            },
            None => None,
        }
    }

    /// Puts `value` under `key`, in place of the record that was there, if any.
    pub fn put(&mut self, key: K, value: V)
        requires
            old(self).wf(),
        ensures
            final(self).wf(),
            final(self)@ == old(self)@.insert(key, value),
            forall|weight: spec_fn(K, V) -> nat| #[trigger]
                final(self).total(weight) + old(self).share(weight, key) == old(self).total(weight)
                    + weight(key, value),
    {
        let entry = Entry { key, value };
        match self.position(&key) {
            Some(i) => {
                proof {
                    lemma_update(self.entries@, i as int, entry);
                    assert forall|weight: spec_fn(K, V) -> nat|
                        weigh(self.entries@.update(i as int, entry), weight) + old(self).share(
                            weight,
                            key,
                        ) == #[trigger] weigh(self.entries@, weight) + weight(key, value) by {
                        lemma_weigh_update(self.entries@, i as int, entry, weight);
                    }
                }
                self.entries.set(i, entry);
            },
            None => {
                proof {
                    lemma_push(self.entries@, entry);
                    assert forall|weight: spec_fn(K, V) -> nat|
                        weigh(self.entries@.push(entry), weight) == #[trigger] weigh(
                            self.entries@,
                            weight,
                        ) + weight(key, value) by {
                        lemma_weigh_push(self.entries@, entry, weight);
                    }
                }
                self.entries.push(entry);
            },
        }
    }

    /// Takes the record under `key` out of the store.
    pub fn take(&mut self, key: &K) -> (r: Option<V>)
        requires
            old(self).wf(),
        ensures
            final(self).wf(),
            final(self)@ == old(self)@.remove(*key),
            match r {
                Some(value) => old(self)@.contains_key(*key) && value == old(self)@[*key],
                None => !old(self)@.contains_key(*key),
            },
            forall|weight: spec_fn(K, V) -> nat| #[trigger]
                final(self).total(weight) + old(self).share(weight, *key) == old(self).total(
                    weight,
                ),
    {
        match self.position(key) {
            Some(i) => {
                proof {
                    lemma_remove(self.entries@, i as int);
                    assert forall|weight: spec_fn(K, V) -> nat|
                        weigh(self.entries@.remove(i as int), weight) + old(self).share(
                            weight,
                            *key,
                        ) == #[trigger] weigh(self.entries@, weight) by {
                        lemma_weigh_remove(self.entries@, i as int, weight);
                    }
                }
                let entry = self.entries.remove(i);
                Some(entry.value)
            },
            None => {
                assert(self@ =~= self@.remove(*key));
                None
            },
        }
    }

    /// One record never weighs more than all records together.
    pub proof fn lemma_share_bounded(&self, weight: spec_fn(K, V) -> nat, key: K)
        requires
            self.wf(),
        ensures
            self.share(weight, key) <= self.total(weight),
    {
        if self@.contains_key(key) {
            let i = slot_of(self.entries@, key);
            lemma_weigh_bound(self.entries@, i, weight);
        }
    }
}

} // verus!
