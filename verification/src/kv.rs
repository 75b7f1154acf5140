//! The key/value cache that the services share: a map from string keys to
//! byte values. The cache host serves it over gRPC to every component, and
//! the composed hosts serve it in-process.
use vstd::prelude::*;

use crate::keyed::KeyedTable;

verus! {

/// What the cache answers for `k`: the value last stored under it, if any.
pub open spec fn lookup(m: Map<Seq<char>, Seq<u8>>, k: Seq<char>) -> Option<Seq<u8>> {
    if m.dom().contains(k) { Some(m[k]) } else { None }
}

/// The bytes of an optional value.
pub open spec fn opt_bytes(o: Option<Vec<u8>>) -> Option<Seq<u8>> {
    match o {
        Some(v) => Some(v@),
        None => None,
    }
}

/// A string-keyed cache of byte values.
pub struct KvCache {
    table: KeyedTable<Vec<u8>>,
}

impl KvCache {
    pub closed spec fn wf(&self) -> bool {
        self.table.wf()
    }

    /// The cached values, by key.
    pub closed spec fn view(&self) -> Map<Seq<char>, Seq<u8>> {
        self.table.contents().map_values(|v: Vec<u8>| v@)
    }

    /// An empty cache.
    pub fn new() -> (c: Self)
        ensures
            c.wf(),
            c.view() == Map::<Seq<char>, Seq<u8>>::empty(),
    {
        let c = KvCache { table: KeyedTable::new() };
        assert(c.view() =~= Map::<Seq<char>, Seq<u8>>::empty());
        c
    }

    /// The value stored under `key`, if any (a copy of it).
    pub fn get(&self, key: &String) -> (r: Option<Vec<u8>>)
        requires
            self.wf(),
        ensures
            opt_bytes(r) == lookup(self.view(), key@),
    {
        match self.table.get(key) {
            Some(v) => {
                let c = v.clone();
                assert(c@ =~= v@);
                Some(c)
            },
            None => None,
        }
    }

    /// The values stored under each of `keys`, in order.
    pub fn get_multi(&self, keys: &Vec<String>) -> (r: Vec<Option<Vec<u8>>>)
        requires
            self.wf(),
        ensures
            r@.len() == keys@.len(),
            forall|i: int| 0 <= i < keys@.len() ==> opt_bytes(#[trigger] r@[i]) == lookup(self.view(), keys@[i]@),
    {
        let mut out: Vec<Option<Vec<u8>>> = Vec::new();
        let mut i: usize = 0;
        while i < keys.len()
            invariant
                self.wf(),
                i <= keys@.len(),
                out@.len() == i,
                forall|j: int| 0 <= j < i ==> opt_bytes(#[trigger] out@[j]) == lookup(self.view(), keys@[j]@),
            decreases keys@.len() - i,
        {
            let v = self.get(&keys[i]);
            out.push(v);
            i = i + 1;
        }
        out
    }

    /// Stores `value` under `key`, replacing what was there.
    pub fn set(&mut self, key: String, value: Vec<u8>)
        requires
            old(self).wf(),
        ensures
            final(self).wf(),
            final(self).view() == old(self).view().insert(key@, value@),
    {
        let ghost k = key@;
        let ghost vb = value@;
        self.table.insert(key, value);
        assert(self.view() =~= old(self).view().insert(k, vb));
    }
}

/// A read gives back what the last write to the same key wrote, and a write
/// leaves every other key as it was.
pub proof fn lemma_get_after_set(m: Map<Seq<char>, Seq<u8>>, k: Seq<char>, v: Seq<u8>, other: Seq<char>)
    requires
        other != k,
    ensures
        lookup(m.insert(k, v), k) == Some(v),
        lookup(m.insert(k, v), other) == lookup(m, other),
{
}

/// Two writes to the same key: the later one wins.
pub proof fn lemma_last_write_wins(m: Map<Seq<char>, Seq<u8>>, k: Seq<char>, v1: Seq<u8>, v2: Seq<u8>)
    ensures
        m.insert(k, v1).insert(k, v2) == m.insert(k, v2),
{
    assert(m.insert(k, v1).insert(k, v2) =~= m.insert(k, v2));
}

} // verus!
