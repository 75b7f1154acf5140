//! How values cross the gRPC boundary between a service host and the store
//! and cache hosts: optional values travel as a `found` flag beside the value,
//! and a record is looked up among loaded records by its id.
use vstd::prelude::*;

use crate::kv::opt_bytes;

verus! {

/// One cache lookup on the wire: whether the key was found, and its value
/// (empty when it was not).
pub struct CacheEntry {
    pub found: bool,
    pub value: Vec<u8>,
}

/// The wire form of a lookup result.
pub open spec fn entry_matches(v: Option<Seq<u8>>, e: CacheEntry) -> bool {
    match v {
        Some(b) => e.found && e.value@ == b,
        None => !e.found && e.value@ == Seq::<u8>::empty(),
    }
}

/// The lookup result a wire entry stands for.
pub open spec fn entry_value(e: CacheEntry) -> Option<Seq<u8>> {
    if e.found { Some(e.value@) } else { None }
}

/// The cache host's answer to a `Get`: the value with `found` set, or
/// `found` clear and an empty value.
pub fn encode_lookup(v: Option<Vec<u8>>) -> (e: CacheEntry)
    ensures
        entry_matches(opt_bytes(v), e),
{
    match v {
        Some(value) => CacheEntry { found: true, value },
        None => CacheEntry { found: false, value: Vec::new() },
    }
}

/// What a service host reads from a `Get` answer: the value when `found` is
/// set, nothing otherwise.
pub fn decode_lookup(e: CacheEntry) -> (v: Option<Vec<u8>>)
    ensures
        opt_bytes(v) == entry_value(e),
{
    if e.found {
        Some(e.value)
    } else {
        None
    }
}

/// The cache host's answer to a `GetMulti`: one entry per key, in order.
pub fn encode_lookups(vs: Vec<Option<Vec<u8>>>) -> (es: Vec<CacheEntry>)
    ensures
        es@.len() == vs@.len(),
        forall|i: int| 0 <= i < vs@.len() ==> entry_matches(opt_bytes(vs@[i]), #[trigger] es@[i]),
{
    let mut out: Vec<CacheEntry> = Vec::new();
    for v in it: vs.into_iter()
        invariant
            out@.len() == it.index(),
            it.index() <= vs@.len(),
            forall|j: int| 0 <= j < it.index() ==> entry_matches(opt_bytes(vs@[j]), #[trigger] out@[j]),
    {
        out.push(encode_lookup(v));
    }
    out
}

/// What a service host reads from a `GetMulti` answer: one result per entry, in order.
pub fn decode_lookups(es: Vec<CacheEntry>) -> (vs: Vec<Option<Vec<u8>>>)
    ensures
        vs@.len() == es@.len(),
        forall|i: int| 0 <= i < es@.len() ==> #[trigger] opt_bytes(vs@[i]) == entry_value(es@[i]),
{
    let mut out: Vec<Option<Vec<u8>>> = Vec::new();
    for e in it: es.into_iter()
        invariant
            out@.len() == it.index(),
            it.index() <= es@.len(),
            forall|j: int| 0 <= j < it.index() ==> #[trigger] opt_bytes(out@[j]) == entry_value(es@[j]),
    {
        out.push(decode_lookup(e));
    }
    out
}

/// A cached value survives the trip through the cache host: what the service
/// reads back is what the cache held.
pub proof fn lemma_lookup_round_trip(v: Option<Seq<u8>>, e: CacheEntry)
    requires
        entry_matches(v, e),
    ensures
        entry_value(e) == v,
{
}

/// A store's answer to a single-record lookup: `found` beside the record.
pub fn encode_found<T>(item: Option<T>) -> (r: (bool, Option<T>))
    ensures
        r.0 == item is Some,
        r.1 == item,
{
    let found = item.is_some();
    (found, item)
}

/// What a service reads from a single-record answer: the record when `found`
/// is set, nothing otherwise.
pub fn decode_found<T>(found: bool, item: Option<T>) -> (r: Option<T>)
    ensures
        r == if found { item } else { None::<T> },
{
    if !found {
        return None;
    }
    item
}

/// A record looked up in the store reaches the service unchanged, and a
/// missing one reaches it as missing.
pub proof fn lemma_found_round_trip<T>(item: Option<T>)
    ensures
        (if (item is Some) { item } else { None::<T> }) == item,
{
}

/// The first position at which `ids` holds `id`.
pub fn position_of(ids: &Vec<String>, id: &String) -> (r: Option<usize>)
    ensures
        match r {
            Some(i) => i < ids@.len() && ids@[i as int]@ == id@ && forall|j: int|
                0 <= j < i ==> ids@[j]@ != id@,
            None => forall|j: int| 0 <= j < ids@.len() ==> ids@[j]@ != id@,
        },
{
    let mut i: usize = 0;
    while i < ids.len()
        invariant
            i <= ids@.len(),
            forall|j: int| 0 <= j < i ==> ids@[j]@ != id@,
        decreases ids@.len() - i,
    {
        if ids[i] == *id {
            return Some(i);
        }
        i = i + 1;
    }
    None
}

} // verus!
