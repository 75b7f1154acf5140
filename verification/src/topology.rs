//! Topology capture for the equivalence harness.
//!
//! When capture is enabled, every gRPC request a host serves is counted under
//! its request path, and the cache host counts its get/set operations. The
//! running totals are periodically written out as JSON snapshots; this module
//! holds the counters, the decisions and the snapshot encoding, while the
//! periodic writer lives with the host binaries.
use vstd::prelude::*;
use vstd::string::StringExecFns;

use crate::keyed::{KeyedTable, key_chars, table_map};

verus! {

/// The count recorded under `k` (zero when `k` was never recorded).
pub open spec fn count_of(m: Map<Seq<char>, u64>, k: Seq<char>) -> int {
    if m.dom().contains(k) { m[k] as int } else { 0 }
}

/// `m` with `n` more operations recorded under `k`.
pub open spec fn bumped(m: Map<Seq<char>, u64>, k: Seq<char>, n: u64) -> Map<Seq<char>, u64> {
    m.insert(k, (count_of(m, k) + n) as u64)
}

/// The counter state of one host: the per-path request counts and the
/// per-operation cache counts, plus whether capture is switched on.
pub struct Topology {
    capture: bool,
    rpc: KeyedTable<u64>,
    cache: KeyedTable<u64>,
}

impl Topology {
    pub closed spec fn wf(&self) -> bool {
        self.rpc.wf() && self.cache.wf()
    }

    /// Whether capture is on for this run.
    pub closed spec fn is_enabled(&self) -> bool {
        self.capture
    }

    /// Request counts, keyed by request path.
    pub closed spec fn rpc_view(&self) -> Map<Seq<char>, u64> {
        self.rpc.contents()
    }

    /// Cache-operation counts, keyed by operation (`get`/`set`).
    pub closed spec fn cache_view(&self) -> Map<Seq<char>, u64> {
        self.cache.contents()
    }

    /// Fresh counters; `capture` fixes for the whole run whether anything is counted.
    pub fn new(capture: bool) -> (t: Self)
        ensures
            t.wf(),
            t.is_enabled() == capture,
            t.rpc_view() == Map::<Seq<char>, u64>::empty(),
            t.cache_view() == Map::<Seq<char>, u64>::empty(),
    {
        Topology { capture, rpc: KeyedTable::new(), cache: KeyedTable::new() }
    }

    /// Whether topology capture is enabled for this run.
    pub fn enabled(&self) -> (b: bool)
        ensures
            b == self.is_enabled(),
    {
        self.capture
    }

    /// The request counters.
    pub fn counts(&self) -> (c: &KeyedTable<u64>)
        requires
            self.wf(),
        ensures
            c.wf(),
            c.contents() == self.rpc_view(),
    {
        &self.rpc
    }

    /// The cache-operation counters.
    pub fn cache_counts(&self) -> (c: &KeyedTable<u64>)
        requires
            self.wf(),
        ensures
            c.wf(),
            c.contents() == self.cache_view(),
    {
        &self.cache
    }
}

/// Counters only grow: recording `n` operations under `k` adds exactly `n`
/// to that counter and leaves every other counter as it was, so the
/// difference between two snapshots is what was recorded in between.
pub proof fn lemma_counts_only_grow(m: Map<Seq<char>, u64>, k: Seq<char>, n: u64, other: Seq<char>)
    requires
        count_of(m, k) + n <= u64::MAX,
        other != k,
    ensures
        count_of(bumped(m, k, n), k) == count_of(m, k) + n,
        count_of(bumped(m, k, n), other) == count_of(m, other),
{
}

/// Recording `n1` and then `n2` operations under a key counts the same as
/// recording `n1 + n2` at once (a multi-key lookup of `n` keys counts as `n` lookups).
pub proof fn lemma_counts_add_up(m: Map<Seq<char>, u64>, k: Seq<char>, n1: u64, n2: u64)
    requires
        count_of(m, k) + n1 + n2 <= u64::MAX,
    ensures
        bumped(bumped(m, k, n1), k, n2) == bumped(m, k, (n1 + n2) as u64),
{
    assert(bumped(bumped(m, k, n1), k, n2) =~= bumped(m, k, (n1 + n2) as u64));
}

/// The count recorded under `key` in `table` (zero when never recorded).
pub fn count_of_key(table: &KeyedTable<u64>, key: &str) -> (c: u64)
    requires
        table.wf(),
    ensures
        c == count_of(table.contents(), key@),
{
    match table.get(&key.to_owned()) {
        Some(c) => *c,
        None => 0,
    }
}

/// Adds `n` to the counter for `key` in `table`.
fn bump(table: &mut KeyedTable<u64>, key: &str, n: u64)
    requires
        old(table).wf(),
        count_of(old(table).contents(), key@) + n <= u64::MAX,
    ensures
        final(table).wf(),
        final(table).contents() == bumped(old(table).contents(), key@, n),
{
    let cur = count_of_key(table, key);
    table.insert(key.to_owned(), cur + n);
}

/// Records `n` cache operations of kind `op` (`get`/`set`). A no-op unless
/// capture is enabled, and a no-op for `n == 0`.
pub fn record_cache(topology: &mut Topology, op: &str, n: u64)
    requires
        old(topology).wf(),
        old(topology).is_enabled() && n != 0 ==> count_of(old(topology).cache_view(), op@) + n
            <= u64::MAX,
    ensures
        final(topology).wf(),
        final(topology).is_enabled() == old(topology).is_enabled(),
        final(topology).rpc_view() == old(topology).rpc_view(),
        final(topology).cache_view() == if old(topology).is_enabled() && n != 0 {
            bumped(old(topology).cache_view(), op@, n)
        } else {
            old(topology).cache_view()
        },
{
    if !topology.capture || n == 0 {
        return ;
    }
    bump(&mut topology.cache, op, n);
}

/// Counts one served request under its request path. A no-op unless capture
/// is enabled.
pub fn record(topology: &mut Topology, path: &str)
    requires
        old(topology).wf(),
        old(topology).is_enabled() ==> count_of(old(topology).rpc_view(), path@) + 1 <= u64::MAX,
    ensures
        final(topology).wf(),
        final(topology).is_enabled() == old(topology).is_enabled(),
        final(topology).cache_view() == old(topology).cache_view(),
        final(topology).rpc_view() == if old(topology).is_enabled() {
            bumped(old(topology).rpc_view(), path@, 1)
        } else {
            old(topology).rpc_view()
        },
{
    if !topology.capture {
        return ;
    }
    bump(&mut topology.rpc, path, 1);
}

/// Whether capture is switched on, from the value of the `EQUIV_TOPOLOGY`
/// setting: on exactly when it is set to `1`.
pub fn enabled(setting: Option<&str>) -> (b: bool)
    ensures
        b == (setting matches Some(s) && s@ == "1"@),
{
    match setting {
        Some(s) => s.to_owned() == "1".to_owned(),
        None => false,
    }
}

/// The name a host's snapshots are filed under: the `HOSTNAME` setting, or
/// `host` when it is not set.
pub fn host_name(setting: Option<&str>) -> (h: String)
    ensures
        h@ == match setting {
            Some(s) => s@,
            None => "host"@,
        },
{
    match setting {
        Some(s) => s.to_owned(),
        None => "host".to_owned(),
    }
}

/// The snapshot stems of a host: `rpc-<host>` for the request counts and
/// `cache-<host>` for the cache-operation counts.
pub fn snapshot_stems(host: &str) -> (r: (String, String))
    ensures
        r.0@ == "rpc-"@ + host@,
        r.1@ == "cache-"@ + host@,
{
    let mut rpc = "rpc-".to_owned();
    rpc.append(host);
    let mut cache = "cache-".to_owned();
    cache.append(host);
    (rpc, cache)
}

/// The file names of a snapshot: the final `<stem>.json` and the temporary
/// `<stem>.json.tmp` that is written first and then renamed over it, so the
/// snapshot is replaced atomically.
pub fn snapshot_file_names(stem: &str) -> (r: (String, String))
    ensures
        r.0@ == stem@ + ".json"@,
        r.1@ == stem@ + ".json.tmp"@,
{
    let mut path = stem.to_owned();
    path.append(".json");
    let mut tmp = stem.to_owned();
    tmp.append(".json.tmp");
    (path, tmp)
}

/// The JSON text that `serde_json` writes for a map from strings to counts
/// (an object with one member per key).
pub uninterp spec fn counts_json(m: Map<Seq<char>, u64>) -> Seq<u8>;

/// Encodes a counter table as a JSON object with `serde_json::to_vec`, the
/// table converted to an ordered `BTreeMap<String, u64>` first. Claims that the
/// encoding succeeds (its documentation names only a failing `Serialize` impl
/// and non-string map keys as causes of failure, and neither occurs here) and
/// that its text is `counts_json` of the table's map.
#[verifier::external_body]
fn encode_counts(keys: &Vec<String>, vals: &Vec<u64>) -> (r: Option<Vec<u8>>)
    requires
        keys@.len() == vals@.len(),
        key_chars(keys@).no_duplicates(),
    ensures
        r is Some,
        r matches Some(b) ==> b@ == counts_json(table_map(key_chars(keys@), vals@)),
{
    let m: std::collections::BTreeMap<&String, u64> = keys.iter().zip(vals.iter().copied()).collect();
    serde_json::to_vec(&m).ok()
}

/// The JSON snapshot of a counter table: an object with one member per
/// recorded key.
pub fn snapshot_json(table: &KeyedTable<u64>) -> (b: Vec<u8>)
    requires
        table.wf(),
    ensures
        b@ == counts_json(table.contents()),
{
    let (keys, vals) = table.columns();
    match encode_counts(keys, vals) {
        Some(b) => b,
        None => Vec::new(),
    }
}

/// A tower layer that counts each request by its path (the gRPC full method).
#[derive(Clone, Copy)]
pub struct TopologyLayer;

impl Default for TopologyLayer {
    fn default() -> (l: Self)
        ensures
            l == TopologyLayer,
    {
        TopologyLayer
    }
}

impl TopologyLayer {
    /// Wraps `inner` so that every request it serves is counted first.
    pub fn layer<S>(&self, inner: S) -> (s: TopologyService<S>)
        ensures
            s.inner == inner,
    {
        TopologyService { inner }
    }
}

/// A service that counts each request it sees and then hands it to `inner`.
#[derive(Clone)]
pub struct TopologyService<S> {
    pub inner: S,
}

impl<S> TopologyService<S> {
    /// Counts one request under `path`; the caller then forwards the request
    /// to `inner` unchanged.
    pub fn call(&self, topology: &mut Topology, path: &str)
        requires
            old(topology).wf(),
            old(topology).is_enabled() ==> count_of(old(topology).rpc_view(), path@) + 1
                <= u64::MAX,
        ensures
            final(topology).wf(),
            final(topology).is_enabled() == old(topology).is_enabled(),
            final(topology).cache_view() == old(topology).cache_view(),
            final(topology).rpc_view() == if old(topology).is_enabled() {
                bumped(old(topology).rpc_view(), path@, 1)
            } else {
                old(topology).rpc_view()
            },
    {
        record(topology, path);
    }
}

} // verus!
