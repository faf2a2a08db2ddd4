//! An association list that behaves as a map.
//!
//! Keys are compared through a mathematical model (`MapKey::model`), so keys
//! made of byte vectors are equal when their bytes are.
use vstd::prelude::*;

verus! {

/// A key type with a model and an executable comparison of models.
pub trait MapKey: Sized {
    /// What two equal keys have in common.
    type Model;

    /// The model of a key.
    spec fn model(&self) -> Self::Model;

    /// Returns `true` exactly when the two models are the same.
    fn same(&self, other: &Self) -> (r: bool)
        ensures
            r == (self.model() == other.model()),
    ;
}

/// A map from keys to values. No two entries have keys with the same model.
#[derive(Debug)]
pub struct AssocMap<K: MapKey, V> {
    entries: Vec<(K, V)>,
}

/// The models of the keys of `entries`, in order.
pub open spec fn entry_keys<K: MapKey, V>(entries: Seq<(K, V)>) -> Seq<K::Model> {
    entries.map_values(|e: (K, V)| e.0.model())
}

/// No two entries have the same key model.
pub open spec fn distinct_keys<K: MapKey, V>(entries: Seq<(K, V)>) -> bool {
    forall|i: int, j: int|
        #![trigger entries[i], entries[j]]
        0 <= i < j < entries.len() ==> entries[i].0.model() != entries[j].0.model()
}

/// The entries read as a map.
pub open spec fn entry_map<K: MapKey, V>(entries: Seq<(K, V)>) -> Map<K::Model, V> {
    Map::new(
        |k: K::Model| exists|i: int| 0 <= i < entries.len() && #[trigger] entries[i].0.model() == k,
        |k: K::Model|
            entries[choose|i: int|
                0 <= i < entries.len() && #[trigger] entries[i].0.model() == k].1,
    )
}

/// Each entry is found in the map under its key.
pub proof fn lemma_entry_in_map<K: MapKey, V>(entries: Seq<(K, V)>, i: int)
    requires
        distinct_keys(entries),
        0 <= i < entries.len(),
    ensures
        entry_map(entries).contains_key(entries[i].0.model()),
        entry_map(entries)[entries[i].0.model()] == entries[i].1,
{
    let k = entries[i].0.model();
    let c = choose|j: int| 0 <= j < entries.len() && #[trigger] entries[j].0.model() == k;
    assert(0 <= c < entries.len() && entries[c].0.model() == k);
    assert(c == i);
}

/// The map has as many keys as the list has entries.
pub proof fn lemma_entry_map_len<K: MapKey, V>(entries: Seq<(K, V)>)
    requires
        distinct_keys(entries),
    ensures
        entry_map(entries).dom().finite(),
        entry_map(entries).dom().len() == entries.len(),
{
    let keys = entry_keys(entries);
    assert(keys.no_duplicates()) by {
        assert forall|i: int, j: int|
            0 <= i < keys.len() && 0 <= j < keys.len() && i != j implies keys[i] != keys[j] by {
            assert(keys[i] == entries[i].0.model());
            assert(keys[j] == entries[j].0.model());
        }
    }
    keys.unique_seq_to_set();
    assert(entry_map(entries).dom() =~= keys.to_set()) by {
        assert forall|k: K::Model| entry_map(entries).dom().contains(k) implies keys.to_set().contains(
            k,
        ) by {
            let i = choose|i: int|
                0 <= i < entries.len() && #[trigger] entries[i].0.model() == k;
            assert(keys[i] == k);
        }
        assert forall|k: K::Model| keys.to_set().contains(k) implies entry_map(
            entries,
        ).dom().contains(k) by {
            let i = choose|i: int| 0 <= i < keys.len() && keys[i] == k;
            assert(entries[i].0.model() == k);
        }
    }
}

impl<K: MapKey, V> View for AssocMap<K, V> {
    type V = Map<K::Model, V>;

    closed spec fn view(&self) -> Map<K::Model, V> {
        entry_map(self.entries@)
    }
}

impl<K: MapKey, V> AssocMap<K, V> {
    #[verifier::type_invariant]
    spec fn distinct(self) -> bool {
        distinct_keys(self.entries@)
    }

    /// The entries in the order in which they are held.
    pub closed spec fn listed(self) -> Seq<(K, V)> {
        self.entries@
    }

    /// An empty map.
    pub fn new() -> (r: Self)
        ensures
            r@ == Map::<K::Model, V>::empty(),
            r.listed() == Seq::<(K, V)>::empty(),
    {
        let r = AssocMap { entries: Vec::new() };
        assert(r@ =~= Map::<K::Model, V>::empty());
        r
    }

    /// The number of keys. The list and the map are two readings of the same
    /// entries, with no key listed twice.
    pub fn len(&self) -> (r: usize)
        ensures
            r == self@.dom().len(),
            self@.dom().finite(),
            r == self.listed().len(),
            distinct_keys(self.listed()),
            self@ == entry_map(self.listed()),
    {
        proof {
            use_type_invariant(self);
            lemma_entry_map_len(self.entries@);
        }
        self.entries.len()
    }

    /// The entry at position `i` of the list.
    pub fn entry_at(&self, i: usize) -> (r: &(K, V))
        requires
            i < self.listed().len(),
        ensures
            *r == self.listed()[i as int],
    {
        &self.entries[i]
    }

    /// The position at which `key` is listed.
    fn position(&self, key: &K) -> (r: Option<usize>)
        ensures
            match r {
                Some(i) => i < self.entries@.len() && self.entries@[i as int].0.model()
                    == key.model() && self@.contains_key(key.model()) && self@[key.model()]
                    == self.entries@[i as int].1,
                None => !self@.contains_key(key.model()),
            },
    {
        let mut i: usize = 0;
        while i < self.entries.len()
            invariant
                i <= self.entries@.len(),
                forall|j: int| 0 <= j < i ==> self.entries@[j].0.model() != key.model(),
            decreases self.entries.len() - i,
        {
            if self.entries[i].0.same(key) {
                proof {
                    use_type_invariant(self);
                    lemma_entry_in_map(self.entries@, i as int);
                }
                return Some(i);
            }
            i += 1;
        }
        None
    }

    /// The value under `key`, if there is one.
    pub fn get(&self, key: &K) -> (r: Option<&V>)
        ensures
            match r {
                Some(v) => self@.contains_key(key.model()) && *v == self@[key.model()],
                None => !self@.contains_key(key.model()),
            },
    {
        match self.position(key) {
            Some(i) => Some(&self.entries[i].1),
            None => None,
        }
    }

    /// Returns `true` exactly when there is a value under `key`.
    pub fn contains_key(&self, key: &K) -> (r: bool)
        ensures
            r == self@.contains_key(key.model()),
    {
        self.position(key).is_some()
    }

    /// Takes the value under `key` out of the map.
    pub fn remove(&mut self, key: &K) -> (r: Option<V>)
        ensures
            final(self)@ == old(self)@.remove(key.model()),
            match r {
                Some(v) => old(self)@.contains_key(key.model()) && v == old(self)@[key.model()],
                None => !old(self)@.contains_key(key.model()) && final(self)@ == old(self)@,
            },
    {
        match self.position(key) {
            Some(i) => {
                proof {
                    use_type_invariant(&*self);
                }
                let ghost before = self.entries@;
                let mut entries: Vec<(K, V)> = Vec::new();
                std::mem::swap(&mut entries, &mut self.entries);
                let (k, v) = entries.remove(i);
                proof {
                    lemma_remove(before, i as int);
                    assert(before[i as int] == (k, v));
                }
                self.entries = entries;
                Some(v)
            },
            None => {
                assert(self@.remove(key.model()) =~= self@);
                None
            },
        }
    }

    /// Keeps the entries whose values `keep` accepts, and no others.
    pub fn retain<F: Fn(&V) -> bool>(&mut self, keep: F)
        requires
            forall|v: &V| #[trigger] call_requires(keep, (v,)),
        ensures
            forall|k: K::Model| #[trigger]
                final(self)@.contains_key(k) ==> old(self)@.contains_key(k) && final(self)@[k]
                    == old(self)@[k] && call_ensures(keep, (&old(self)@[k],), true),
            forall|k: K::Model| #[trigger]
                old(self)@.contains_key(k) && !final(self)@.contains_key(k) ==> call_ensures(
                    keep,
                    (&old(self)@[k],),
                    false,
                ),
    {
        proof {
            use_type_invariant(&*self);
        }
        let ghost before = self@;
        let mut i: usize = 0;
        while i < self.entries.len()
            invariant
                i <= self.entries@.len(),
                distinct_keys(self.entries@),
                forall|v: &V| #[trigger] call_requires(keep, (v,)),
                forall|k: K::Model| #[trigger]
                    self@.contains_key(k) ==> before.contains_key(k) && self@[k] == before[k],
                forall|k: K::Model| #[trigger]
                    before.contains_key(k) && !self@.contains_key(k) ==> call_ensures(
                        keep,
                        (&before[k],),
                        false,
                    ),
                forall|j: int|
                    0 <= j < i ==> call_ensures(keep, (&(#[trigger] self.entries@[j]).1,), true),
            decreases self.entries@.len() - i,
        {
            let ghost at = self.entries@;
            let ghost current = self@;
            proof {
                lemma_entry_in_map(at, i as int);
            }
            if keep(&self.entries[i].1) {
                i += 1;
            } else {
                let mut entries: Vec<(K, V)> = Vec::new();
                std::mem::swap(&mut entries, &mut self.entries);
                let ghost gone = at[i as int].0.model();
                let _ = entries.remove(i);
                proof {
                    lemma_remove(at, i as int);
                }
                self.entries = entries;
                proof {
                    assert(current.contains_key(gone));
                    assert(self@ == current.remove(gone));
                    assert forall|k: K::Model| #[trigger] self@.contains_key(k) implies before.contains_key(
                        k,
                    ) && self@[k] == before[k] by {
                        assert(current.contains_key(k));
                    }
                    assert forall|k: K::Model| #[trigger]
                        before.contains_key(k) && !self@.contains_key(k) implies call_ensures(
                        keep,
                        (&before[k],),
                        false,
                    ) by {
                        if k != gone {
                            assert(!current.contains_key(k));
                        }
                    }
                    assert forall|j: int| 0 <= j < i implies call_ensures(
                        keep,
                        (&(#[trigger] self.entries@[j]).1,),
                        true,
                    ) by {
                        assert(self.entries@[j] == at[j]);
                    }
                }
            }
        }
        proof {
            assert forall|k: K::Model| #[trigger] self@.contains_key(k) implies call_ensures(
                keep,
                (&before[k],),
                true,
            ) by {
                let j = choose|j: int|
                    0 <= j < self.entries@.len() && #[trigger] self.entries@[j].0.model() == k;
                lemma_entry_in_map(self.entries@, j);
            }
        }
    }

    /// Puts `value` under `key`, in place of what was there.
    pub fn insert(&mut self, key: K, value: V)
        ensures
            final(self)@ == old(self)@.insert(key.model(), value),
    {
        let ghost at_start = self@;
        let _ = self.remove(&key);
        proof {
            use_type_invariant(&*self);
        }
        let ghost before = self.entries@;
        let mut entries: Vec<(K, V)> = Vec::new();
        std::mem::swap(&mut entries, &mut self.entries);
        entries.push((key, value));
        proof {
            assert(!entry_map(before).contains_key(key.model()));
            lemma_push(before, (key, value));
            assert(at_start.remove(key.model()).insert(key.model(), value) =~= at_start.insert(
                key.model(),
                value,
            ));
        }
        self.entries = entries;
    }
}

/// Taking an entry out of the list takes its key out of the map.
proof fn lemma_remove<K: MapKey, V>(entries: Seq<(K, V)>, at: int)
    requires
        distinct_keys(entries),
        0 <= at < entries.len(),
    ensures
        distinct_keys(entries.remove(at)),
        entry_map(entries.remove(at)) == entry_map(entries).remove(entries[at].0.model()),
{
    let after = entries.remove(at);
    let gone = entries[at].0.model();
    assert forall|i: int, j: int|
        #![trigger after[i], after[j]]
        0 <= i < j < after.len() implies after[i].0.model() != after[j].0.model() by {
        let a = if i < at { i } else { i + 1 };
        let b = if j < at { j } else { j + 1 };
        assert(after[i] == entries[a]);
        assert(after[j] == entries[b]);
    }
    let m = entry_map(entries).remove(gone);
    let n = entry_map(after);
    assert forall|k: K::Model| #[trigger] m.dom().contains(k) implies n.dom().contains(k) && n[k]
        == m[k] by {
        let i = choose|i: int| 0 <= i < entries.len() && #[trigger] entries[i].0.model() == k;
        let a = if i < at { i } else { i - 1 };
        assert(after[a] == entries[i]);
        lemma_entry_in_map(after, a);
        lemma_entry_in_map(entries, i);
    }
    assert forall|k: K::Model| #[trigger] n.dom().contains(k) implies m.dom().contains(k) by {
        let a = choose|i: int| 0 <= i < after.len() && #[trigger] after[i].0.model() == k;
        let i = if a < at { a } else { a + 1 };
        assert(after[a] == entries[i]);
        lemma_entry_in_map(entries, i);
    }
    assert(n.dom() =~= m.dom());
    assert(n =~= m);
}

/// Adding an entry with a new key to the list adds it to the map.
proof fn lemma_push<K: MapKey, V>(entries: Seq<(K, V)>, e: (K, V))
    requires
        distinct_keys(entries),
        !entry_map(entries).contains_key(e.0.model()),
    ensures
        distinct_keys(entries.push(e)),
        entry_map(entries.push(e)) == entry_map(entries).insert(e.0.model(), e.1),
{
    let after = entries.push(e);
    assert forall|i: int| 0 <= i < entries.len() implies #[trigger] entries[i].0.model()
        != e.0.model() by {}
    assert forall|i: int, j: int|
        #![trigger after[i], after[j]]
        0 <= i < j < after.len() implies after[i].0.model() != after[j].0.model() by {
        assert(after[i] == entries[i]);
        if j < entries.len() {
            assert(after[j] == entries[j]);
        }
    }
    let m = entry_map(entries).insert(e.0.model(), e.1);
    let n = entry_map(after);
    assert forall|k: K::Model| #[trigger] m.dom().contains(k) implies n.dom().contains(k) && n[k]
        == m[k] by {
        if k == e.0.model() {
            lemma_entry_in_map(after, entries.len() as int);
        } else {
            let i = choose|i: int| 0 <= i < entries.len() && #[trigger] entries[i].0.model() == k;
            assert(after[i] == entries[i]);
            lemma_entry_in_map(after, i);
            lemma_entry_in_map(entries, i);
        }
    }
    assert forall|k: K::Model| #[trigger] n.dom().contains(k) implies m.dom().contains(k) by {
        let i = choose|i: int| 0 <= i < after.len() && #[trigger] after[i].0.model() == k;
        if i < entries.len() {
            assert(after[i] == entries[i]);
            lemma_entry_in_map(entries, i);
        }
    }
    assert(n.dom() =~= m.dom());
    assert(n =~= m);
}

} // verus!
