use vstd::prelude::*;

verus! {

/// One key and its value.
#[derive(Debug)]
pub struct Entry<V> {
    pub key: String,
    pub value: V,
}

/// A mapping from string keys to values, with map semantics: inserting an
/// existing key replaces its value. Keys are compared exactly.
#[derive(Debug)]
pub struct KeyedTable<V> {
    entries: Vec<Entry<V>>,
}

impl<V> KeyedTable<V> {
    /// The keys in the order in which they were first inserted.
    pub closed spec fn keys(&self) -> Seq<Seq<char>> {
        self.entries@.map_values(|e: Entry<V>| e.key@)
    }

    /// The values, position by position with `keys`.
    pub closed spec fn values(&self) -> Seq<V> {
        self.entries@.map_values(|e: Entry<V>| e.value)
    }

    /// No key occurs twice.
    pub closed spec fn wf(&self) -> bool {
        forall|i: int, j: int|
            0 <= i < j < self.entries@.len() ==> self.entries@[i].key@ != self.entries@[j].key@
    }

    /// The table as a map from keys to values.
    pub open spec fn map(&self) -> Map<Seq<char>, V> {
        Map::new(
            |k: Seq<char>| self.keys().contains(k),
            |k: Seq<char>| self.values()[self.keys().index_of(k)],
        )
    }

    /// In a well-formed table the position of a key is unique.
    pub proof fn lemma_index_of_at(&self, i: int)
        requires
            self.wf(),
            0 <= i < self.keys().len(),
        ensures
            self.keys().index_of(self.keys()[i]) == i,
    {
        let k = self.keys()[i];
        assert(self.keys().contains(k));
        let j = self.keys().index_of(k);
        assert(self.entries@[j].key@ == self.entries@[i].key@);
    }

    /// In a well-formed table no key occurs twice.
    pub proof fn lemma_keys_distinct(&self)
        requires
            self.wf(),
        ensures
            forall|i: int, j: int|
                0 <= i < j < self.keys().len() ==> #[trigger] self.keys()[i] != #[trigger] self.keys()[j],
    {
        assert forall|i: int, j: int| 0 <= i < j < self.keys().len() implies #[trigger] self.keys()[i]
            != #[trigger] self.keys()[j] by {
            assert(self.keys()[i] == self.entries@[i].key@);
            assert(self.keys()[j] == self.entries@[j].key@);
        }
    }

    pub fn new() -> (r: Self)
        ensures
            r.wf(),
            r.keys() == Seq::<Seq<char>>::empty(),
            r.map() == Map::<Seq<char>, V>::empty(),
    {
        let r = KeyedTable { entries: Vec::new() };
        assert(r.map() =~= Map::<Seq<char>, V>::empty());
        r
    }

    pub fn len(&self) -> (r: usize)
        ensures
            r == self.keys().len(),
    {
        self.entries.len()
    }

    /// The position of `key`, if present.
    pub fn position(&self, key: &str) -> (r: Option<usize>)
        requires
            self.wf(),
        ensures
            r is None <==> !self.keys().contains(key@),
            r matches Some(i) ==> i < self.keys().len() && self.keys()[i as int] == key@
                && self.keys().index_of(key@) == i,
    {
        let k = key.to_owned();
        let mut i: usize = 0;
        while i < self.entries.len()
            invariant
                0 <= i <= self.entries@.len(),
                self.wf(),
                k@ == key@,
                forall|j: int| 0 <= j < i ==> self.entries@[j].key@ != key@,
            decreases self.entries@.len() - i,
        {
            if self.entries[i].key == k {
                proof {
                    assert(self.keys()[i as int] == key@);
                    self.lemma_index_of_at(i as int);
                }
                return Some(i);
            }
            i = i + 1;
        }
        proof {
            if self.keys().contains(key@) {
                let j = choose|j: int| 0 <= j < self.keys().len() && self.keys()[j] == key@;
                assert(self.entries@[j].key@ == key@);
            }
        }
        None
    }

    /// The value stored under `key`.
    pub fn get(&self, key: &str) -> (r: Option<&V>)
        requires
            self.wf(),
        ensures
            r is None <==> !self.map().contains_key(key@),
            r matches Some(v) ==> *v == self.map()[key@],
    {
        match self.position(key) {
            Some(i) => Some(&self.entries[i].value),
            None => None,
        }
    }

    /// Whether `key` is present.
    pub fn contains_key(&self, key: &str) -> (r: bool)
        requires
            self.wf(),
        ensures
            r == self.map().contains_key(key@),
    {
        self.position(key).is_some()
    }

    /// The value at a position.
    pub fn value_at(&self, i: usize) -> (r: &V)
        requires
            i < self.keys().len(),
        ensures
            *r == self.values()[i as int],
    {
        &self.entries[i].value
    }

    /// The key at a position.
    pub fn key_at(&self, i: usize) -> (r: &String)
        requires
            i < self.keys().len(),
        ensures
            r@ == self.keys()[i as int],
    {
        &self.entries[i].key
    }

    /// Replaces the value at a position, keeping its key.
    pub fn replace_at(&mut self, i: usize, value: V)
        requires
            old(self).wf(),
            i < old(self).keys().len(),
        ensures
            final(self).wf(),
            final(self).keys() == old(self).keys(),
            final(self).map() == old(self).map().insert(old(self).keys()[i as int], value),
    {
        let key = self.entries[i].key.clone();
        proof {
            assert(self.keys()[i as int] == key@);
            assert(self.keys().contains(key@));
        }
        self.insert(key, value);
    }

    /// Inserts `value` under `key`, replacing a value already stored there.
    pub fn insert(&mut self, key: String, value: V)
        requires
            old(self).wf(),
        ensures
            final(self).wf(),
            final(self).map() == old(self).map().insert(key@, value),
            old(self).keys().contains(key@) ==> final(self).keys() == old(self).keys(),
            !old(self).keys().contains(key@) ==> final(self).keys() == old(self).keys().push(
                key@,
            ),
    {
        let ghost k = key@;
        let ghost old_map = self.map();
        match self.position(key.as_str()) {
            Some(i) => {
                let ghost before = *self;
                self.entries.set(i, Entry { key, value });
                proof {
                    assert(self.keys() =~= before.keys());
                    assert forall|a: int, b: int| 0 <= a < b < self.entries@.len() implies
                        self.entries@[a].key@ != self.entries@[b].key@ by {
                        assert(self.keys()[a] == before.keys()[a]);
                        assert(self.keys()[b] == before.keys()[b]);
                    }
                    assert forall|q: Seq<char>| #[trigger] self.map().contains_key(q) implies
                        self.map()[q] == old_map.insert(k, self.values()[i as int])[q] by {
                        let j = self.keys().index_of(q);
                        assert(self.keys()[j] == q);
                        self.lemma_index_of_at(j);
                        if q != k {
                            assert(before.keys()[j] == q);
                            before.lemma_index_of_at(j);
                        } else {
                            self.lemma_index_of_at(i as int);
                        }
                    }
                    assert(self.map() =~= old_map.insert(k, self.values()[i as int]));
                }
            },
            None => {
                let ghost before = *self;
                self.entries.push(Entry { key, value });
                proof {
                    assert(self.keys() =~= before.keys().push(k));
                    assert(self.values() =~= before.values().push(self.values().last()));
                    assert forall|a: int, b: int| 0 <= a < b < self.entries@.len() implies
                        self.entries@[a].key@ != self.entries@[b].key@ by {
                        if b == self.entries@.len() - 1 {
                            assert(before.keys()[a] == self.entries@[a].key@);
                        }
                    }
                    assert forall|q: Seq<char>| #[trigger] self.map().contains_key(q) implies
                        self.map()[q] == old_map.insert(k, self.values().last())[q] by {
                        if q != k {
                            let j = before.keys().index_of(q);
                            assert(before.keys()[j] == q);
                            assert(self.keys()[j] == q);
                            self.lemma_index_of_at(j);
                        } else {
                            self.lemma_index_of_at(self.keys().len() - 1);
                        }
                    }
                    assert forall|q: Seq<char>|
                        self.map().contains_key(q) == old_map.insert(
                            k,
                            self.values().last(),
                        ).contains_key(q) by {
                        if q == k {
                            assert(self.keys()[self.keys().len() - 1] == k);
                        } else if before.keys().contains(q) {
                            let j = before.keys().index_of(q);
                            assert(self.keys()[j] == q);
                        } else if self.keys().contains(q) {
                            let j = self.keys().index_of(q);
                            assert(before.keys()[j] == q);
                        }
                    }
                    assert(self.map() =~= old_map.insert(k, self.values().last()));
                }
            },
        }
    }
}

} // verus!
