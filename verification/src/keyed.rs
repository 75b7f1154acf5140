//! A small string-keyed table: the in-memory map behind the request counters
//! and the in-process key/value cache.
//!
//! Keys are held in insertion order with no key occurring twice; the abstract
//! model of a table is a finite `Map` from the key's characters to the value.
use vstd::prelude::*;

verus! {

/// A finite map from strings to values, kept as two parallel vectors.
pub struct KeyedTable<V> {
    keys: Vec<String>,
    vals: Vec<V>,
}

/// The map held by aligned key and value sequences (the first occurrence of a
/// key decides its value).
pub open spec fn table_map<V>(keys: Seq<Seq<char>>, vals: Seq<V>) -> Map<Seq<char>, V> {
    Map::new(|k: Seq<char>| keys.contains(k), |k: Seq<char>| vals[keys.index_of(k)])
}

/// The characters of each key, in table order.
pub open spec fn key_chars(keys: Seq<String>) -> Seq<Seq<char>> {
    keys.map_values(|k: String| k@)
}

impl<V> KeyedTable<V> {
    /// The key sequence as character sequences.
    pub closed spec fn key_seq(&self) -> Seq<Seq<char>> {
        key_chars(self.keys@)
    }

    /// The value sequence, aligned with `key_seq`.
    pub closed spec fn val_seq(&self) -> Seq<V> {
        self.vals@
    }

    /// Well-formedness: the two vectors are aligned and no key occurs twice.
    pub closed spec fn wf(&self) -> bool {
        &&& self.keys@.len() == self.vals@.len()
        &&& self.key_seq().no_duplicates()
    }

    /// The abstract map: each stored key to its value.
    pub closed spec fn contents(&self) -> Map<Seq<char>, V> {
        table_map(self.key_seq(), self.vals@)
    }

    /// The table is finite.
    pub proof fn lemma_finite(&self)
        ensures
            self.contents().dom().finite(),
            self.contents().dom() == self.key_seq().to_set(),
    {
        assert(self.contents().dom() =~= self.key_seq().to_set());
        self.key_seq().lemma_cardinality_of_set();
    }

    /// An empty table.
    pub fn new() -> (t: Self)
        ensures
            t.wf(),
            t.contents() == Map::<Seq<char>, V>::empty(),
    {
        let t = KeyedTable { keys: Vec::new(), vals: Vec::new() };
        assert(t.key_seq() =~= Seq::<Seq<char>>::empty());
        assert(t.contents() =~= Map::<Seq<char>, V>::empty());
        t
    }

    /// Number of stored keys.
    pub fn len(&self) -> (n: usize)
        requires
            self.wf(),
        ensures
            n == self.contents().dom().len(),
    {
        proof {
            self.lemma_finite();
            self.key_seq().unique_seq_to_set();
        }
        self.keys.len()
    }

    /// Position of `key` in the table, if it is stored.
    pub fn position(&self, key: &String) -> (r: Option<usize>)
        requires
            self.wf(),
        ensures
            r is None <==> !self.contents().dom().contains(key@),
            r matches Some(i) ==> i < self.key_seq().len() && self.key_seq()[i as int] == key@
                && self.key_seq().index_of(key@) == i,
    {
        let mut i: usize = 0;
        while i < self.keys.len()
            invariant
                self.wf(),
                i <= self.keys@.len(),
                forall|j: int| 0 <= j < i ==> self.key_seq()[j] != key@,
            decreases self.keys@.len() - i,
        {
            if self.keys[i] == *key {
                proof {
                    let ks = self.key_seq();
                    assert(ks[i as int] == key@);
                    assert(ks.contains(key@));
                    let j = ks.index_of(key@);
                    assert(ks[j] == key@);
                    assert(j == i) by {
                        if j != i {
                            assert(ks[j] == ks[i as int]);
                        }
                    }
                }
                return Some(i);
            }
            i = i + 1;
        }
        proof {
            let ks = self.key_seq();
            if ks.contains(key@) {
                let j = ks.index_of(key@);
                assert(ks[j] == key@);
            }
        }
        None
    }

    /// The value stored under `key`, if any.
    pub fn get(&self, key: &String) -> (r: Option<&V>)
        requires
            self.wf(),
        ensures
            r matches Some(v) ==> self.contents().dom().contains(key@) && *v == self.contents()[key@],
            r is None ==> !self.contents().dom().contains(key@),
    {
        match self.position(key) {
            Some(i) => Some(&self.vals[i]),
            None => None,
        }
    }

    /// Stores `v` under `key`, replacing any earlier value for that key.
    pub fn insert(&mut self, key: String, v: V)
        requires
            old(self).wf(),
        ensures
            final(self).wf(),
            final(self).contents() == old(self).contents().insert(key@, v),
    {
        let ghost old_keys = self.key_seq();
        let ghost old_contents = self.contents();
        match self.position(&key) {
            Some(i) => {
                self.vals.set(i, v);
                proof {
                    assert(self.key_seq() =~= old_keys);
                    assert forall|k: Seq<char>| #[trigger] self.contents().dom().contains(k) implies
                        self.contents()[k] == old_contents.insert(key@, v)[k] by {
                        let j = old_keys.index_of(k);
                        assert(old_keys[j] == k);
                        if k == key@ {
                            assert(j == i);
                        } else {
                            assert(j != i);
                        }
                    }
                    assert(self.contents() =~= old_contents.insert(key@, v));
                }
            },
            None => {
                let ghost kv = key@;
                self.keys.push(key);
                self.vals.push(v);
                proof {
                    assert(self.key_seq() =~= old_keys.push(kv));
                    let ks = self.key_seq();
                    assert forall|a: int, b: int| 0 <= a < ks.len() && 0 <= b < ks.len() && a != b implies
                        ks[a] != ks[b] by {
                        if a == ks.len() - 1 {
                            assert(!old_keys.contains(kv));
                            assert(old_keys[b] == ks[b]);
                        } else if b == ks.len() - 1 {
                            assert(!old_keys.contains(kv));
                            assert(old_keys[a] == ks[a]);
                        }
                    }
                    assert forall|k: Seq<char>| #[trigger] self.contents().dom().contains(k) implies
                        self.contents()[k] == old_contents.insert(kv, v)[k] by {
                        let j = ks.index_of(k);
                        assert(ks[j] == k);
                        if k == kv {
                            assert(ks[ks.len() - 1] == kv);
                            assert(j == ks.len() - 1) by {
                                if j != ks.len() - 1 {
                                    assert(ks[j] == ks[ks.len() - 1]);
                                }
                            }
                        } else {
                            assert(j < old_keys.len());
                            assert(old_keys[j] == k);
                            let j0 = old_keys.index_of(k);
                            assert(old_keys[j0] == k);
                            assert(j0 == j) by {
                                if j0 != j {
                                    assert(ks[j0] == ks[j]);
                                }
                            }
                        }
                    }
                    assert forall|k: Seq<char>| #[trigger] old_contents.insert(kv, v).dom().contains(k) implies
                        self.contents().dom().contains(k) by {
                        if k != kv {
                            assert(old_keys.contains(k));
                            let j0 = old_keys.index_of(k);
                            assert(ks[j0] == k);
                        } else {
                            assert(ks[ks.len() - 1] == kv);
                        }
                    }
                    assert(self.contents() =~= old_contents.insert(kv, v));
                }
            },
        }
    }

    /// The stored keys and values as aligned vectors, in table order.
    pub fn columns(&self) -> (r: (&Vec<String>, &Vec<V>))
        requires
            self.wf(),
        ensures
            key_chars(r.0@) == self.key_seq(),
            r.1@ == self.val_seq(),
            r.0@.len() == r.1@.len(),
            key_chars(r.0@).no_duplicates(),
            self.contents() == table_map(key_chars(r.0@), r.1@),
    {
        (&self.keys, &self.vals)
    }
}

} // verus!
