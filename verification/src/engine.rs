//! Engine and pool sizing.
//!
//! Every host runs its components on one wasmtime engine with a pooling
//! allocator sized for the largest composed artifact at a given number of
//! in-flight requests. Each per-component figure can be overridden by a
//! setting; this module reads the settings, and computes the pool totals
//! (`per_component * concurrency`) and byte sizes the engine is configured with.
use vstd::prelude::*;

verus! {

/// One mebibyte, in bytes.
pub const MIB: usize = 1048576;

/// One kibibyte, in bytes.
pub const KIB: u64 = 1024;

/// Simultaneous in-flight requests to provision slots for.
pub const DEFAULT_CONCURRENCY: u32 = 128;

/// Core instances per composed instance.
pub const DEFAULT_CORES_PER_COMPONENT: u32 = 384;

/// Linear memories per composed instance.
pub const DEFAULT_MEMS_PER_COMPONENT: u32 = 32;

/// Tables per composed instance.
pub const DEFAULT_TABLES_PER_COMPONENT: u32 = 64;

/// Cap per linear memory, in MiB.
pub const DEFAULT_MAX_MEMORY_MIB: u32 = 128;

/// Component VMContext size cap, in bytes (32 MiB).
pub const MAX_COMPONENT_INSTANCE_SIZE: usize = 33554432;

/// Per-memory-slot guard region, in bytes (64 KiB).
pub const MEMORY_GUARD_SIZE: u64 = 65536;

/// Warm instances a host pool holds unless `POOL_SIZE` says otherwise.
pub const DEFAULT_POOL_SIZE: usize = 64;

/// An ASCII decimal digit.
pub open spec fn is_digit(c: char) -> bool {
    '0' <= c && c <= '9'
}

/// Every character is a decimal digit.
pub open spec fn all_digits(s: Seq<char>) -> bool {
    forall|i: int| 0 <= i < s.len() ==> is_digit(#[trigger] s[i])
}

/// The number a string of decimal digits denotes.
pub open spec fn digits_value(s: Seq<char>) -> nat
    decreases s.len(),
{
    if s.len() == 0 {
        0
    } else {
        digits_value(s.drop_last()) * 10 + ((s.last() as nat) - ('0' as nat)) as nat
    }
}

/// The digits of a decimal numeral: the text after an optional leading `+`.
pub open spec fn numeral_digits(s: Seq<char>) -> Seq<char> {
    if s.len() > 0 && s[0] == '+' { s.drop_first() } else { s }
}

/// How an unsigned integer no larger than `max` is read from text, as Rust's
/// `from_str` for unsigned integers reads it: an optional `+` followed by one
/// or more decimal digits, denoting at most `max`; anything else (an empty
/// string, a sign alone, a `-`, spaces, other characters) is no number.
pub open spec fn parse_unsigned(s: Seq<char>, max: nat) -> Option<nat> {
    let d = numeral_digits(s);
    if d.len() > 0 && all_digits(d) && digits_value(d) <= max {
        Some(digits_value(d))
    } else {
        None
    }
}

/// Appending digits never makes a numeral smaller.
proof fn lemma_digits_value_prefix(s: Seq<char>, k: int)
    requires
        0 <= k <= s.len(),
        all_digits(s),
    ensures
        digits_value(s.subrange(0, k)) <= digits_value(s),
    decreases s.len(),
{
    if k < s.len() {
        let t = s.drop_last();
        assert(all_digits(t));
        assert(t.subrange(0, k) =~= s.subrange(0, k));
        lemma_digits_value_prefix(t, k);
        assert(is_digit(s[s.len() - 1]));
    } else {
        assert(s.subrange(0, k) =~= s);
    }
}

/// Reads a decimal numeral no larger than `max` (see `parse_unsigned`).
pub fn parse_decimal(s: &str, max: u64) -> (r: Option<u64>)
    ensures
        match parse_unsigned(s@, max as nat) {
            Some(v) => r == Some(v as u64),
            None => r is None,
        },
{
    let len = s.unicode_len();
    let mut start: usize = 0;
    if len > 0 && s.get_char(0) == '+' {
        start = 1;
    }
    let ghost d = numeral_digits(s@);
    assert(d =~= s@.subrange(start as int, s@.len() as int));
    if start >= len {
        return None;
    }
    let mut acc: u64 = 0;
    let mut i: usize = start;
    while i < len
        invariant
            len == s@.len(),
            start <= i <= len,
            start < len,
            d =~= s@.subrange(start as int, len as int),
            d == numeral_digits(s@),
            all_digits(d.subrange(0, i - start)),
            acc as nat == digits_value(d.subrange(0, i - start)),
            acc <= max,
        decreases len - i,
    {
        let c = s.get_char(i);
        let ghost pre = d.subrange(0, i - start);
        let ghost next = d.subrange(0, i + 1 - start);
        assert(next.drop_last() =~= pre);
        assert(next.last() == c);
        if c < '0' || c > '9' {
            assert(!is_digit(d[i - start]));
            return None;
        }
        let digit: u64 = (c as u32 - '0' as u32) as u64;
        assert(digits_value(next) == acc * 10 + digit);
        assert(all_digits(next)) by {
            assert forall|j: int| 0 <= j < next.len() implies is_digit(#[trigger] next[j]) by {
                if j < pre.len() {
                    assert(next[j] == pre[j]);
                }
            }
        }
        if digit > max || acc > (max - digit) / 10 {
            proof {
                if digit <= max {
                    assert(acc * 10 + digit > max) by (nonlinear_arith)
                        requires
                            acc > (max - digit) / 10,
                            digit <= max,
                    ;
                }
                if all_digits(d) {
                    lemma_digits_value_prefix(d, i + 1 - start);
                }
            }
            return None;
        }
        assert(acc * 10 + digit <= max) by (nonlinear_arith)
            requires
                acc <= (max - digit) / 10,
                digit <= max,
        ;
        acc = acc * 10 + digit;
        i = i + 1;
    }
    assert(d.subrange(0, len - start) =~= d);
    Some(acc)
}

/// A `u32` setting: the value it holds when it reads as a `u32`, `default`
/// when it is unset or does not.
pub fn knob(setting: Option<&str>, default: u32) -> (v: u32)
    ensures
        v == match setting {
            Some(s) => match parse_unsigned(s@, u32::MAX as nat) {
                Some(n) => n as u32,
                None => default,
            },
            None => default,
        },
{
    match setting {
        Some(s) => match parse_decimal(s, u32::MAX as u64) {
            Some(n) => n as u32,
            None => default,
        },
        None => default,
    }
}

/// The number of warm instances a host pools: the `POOL_SIZE` setting when it
/// reads as a `usize`, 64 otherwise.
pub fn pool_size(setting: Option<&str>) -> (n: usize)
    ensures
        n == match setting {
            Some(s) => match parse_unsigned(s@, usize::MAX as nat) {
                Some(v) => v as usize,
                None => DEFAULT_POOL_SIZE,
            },
            None => DEFAULT_POOL_SIZE,
        },
{
    match setting {
        Some(s) => match parse_decimal(s, usize::MAX as u64) {
            Some(v) => v as usize,
            None => DEFAULT_POOL_SIZE,
        },
        None => DEFAULT_POOL_SIZE,
    }
}

/// The per-component pool figures a host runs with.
pub struct PoolKnobs {
    pub concurrency: u32,
    pub cores_per_component: u32,
    pub mems_per_component: u32,
    pub tables_per_component: u32,
    pub max_memory_mib: u32,
}

impl PoolKnobs {
    /// The figures from the `POOL_CONCURRENCY`, `POOL_CORES_PER_COMPONENT`,
    /// `POOL_MEMS_PER_COMPONENT`, `POOL_TABLES_PER_COMPONENT` and
    /// `POOL_MAX_MEMORY_MIB` settings, each falling back to its default.
    pub fn from_settings(
        concurrency: Option<&str>,
        cores_per_component: Option<&str>,
        mems_per_component: Option<&str>,
        tables_per_component: Option<&str>,
        max_memory_mib: Option<&str>,
    ) -> (k: PoolKnobs)
        ensures
            k.concurrency == knob_value(concurrency, DEFAULT_CONCURRENCY),
            k.cores_per_component == knob_value(cores_per_component, DEFAULT_CORES_PER_COMPONENT),
            k.mems_per_component == knob_value(mems_per_component, DEFAULT_MEMS_PER_COMPONENT),
            k.tables_per_component == knob_value(tables_per_component, DEFAULT_TABLES_PER_COMPONENT),
            k.max_memory_mib == knob_value(max_memory_mib, DEFAULT_MAX_MEMORY_MIB),
    {
        PoolKnobs {
            concurrency: knob(concurrency, DEFAULT_CONCURRENCY),
            cores_per_component: knob(cores_per_component, DEFAULT_CORES_PER_COMPONENT),
            mems_per_component: knob(mems_per_component, DEFAULT_MEMS_PER_COMPONENT),
            tables_per_component: knob(tables_per_component, DEFAULT_TABLES_PER_COMPONENT),
            max_memory_mib: knob(max_memory_mib, DEFAULT_MAX_MEMORY_MIB),
        }
    }
}

/// The value a `u32` setting yields (see `knob`).
pub open spec fn knob_value(setting: Option<&str>, default: u32) -> u32 {
    match setting {
        Some(s) => match parse_unsigned(s@, u32::MAX as nat) {
            Some(n) => n as u32,
            None => default,
        },
        None => default,
    }
}

/// The figures fit: every total and the memory size in bytes are representable.
pub open spec fn knobs_fit(k: PoolKnobs) -> bool {
    &&& k.concurrency * k.cores_per_component <= u32::MAX
    &&& k.concurrency * k.mems_per_component <= u32::MAX
    &&& k.concurrency * k.tables_per_component <= u32::MAX
    &&& k.max_memory_mib * MIB <= usize::MAX
}

/// The figures fit exactly when every total is a `u32` and the memory cap in
/// bytes (`MiB * 2^20`) is a `usize`: any figures within those bounds are
/// accepted, and none beyond them.
pub proof fn lemma_knobs_fit_bounds(k: PoolKnobs)
    ensures
        knobs_fit(k) <==> (k.concurrency * k.cores_per_component <= 4294967295 && k.concurrency
            * k.mems_per_component <= 4294967295 && k.concurrency * k.tables_per_component <= 4294967295
            && k.max_memory_mib * 1048576 <= usize::MAX),
{
}

/// The pooling allocator's limits.
pub struct PoolingPlan {
    pub max_core_instances_per_component: u32,
    pub max_memories_per_component: u32,
    pub max_tables_per_component: u32,
    pub total_component_instances: u32,
    pub total_core_instances: u32,
    pub total_memories: u32,
    pub total_tables: u32,
    pub total_stacks: u32,
    pub max_component_instance_size: usize,
    pub max_memory_size: usize,
    pub max_unused_warm_slots: u32,
    pub memory_guard_size: u64,
}

proof fn lemma_u32_product(a: u32, b: u32)
    ensures
        (a as int) * (b as int) <= u64::MAX,
{
    assert((a as int) * (b as int) <= (u32::MAX as int) * (u32::MAX as int)) by (nonlinear_arith)
        requires
            a <= u32::MAX,
            b <= u32::MAX,
            0 <= a,
            0 <= b,
    ;
}

/// Whether the figures fit (see `knobs_fit`).
pub fn plan_fits(k: &PoolKnobs) -> (b: bool)
    ensures
        b == knobs_fit(*k),
        b <==> (k.concurrency * k.cores_per_component <= 4294967295 && k.concurrency * k.mems_per_component
            <= 4294967295 && k.concurrency * k.tables_per_component <= 4294967295 && k.max_memory_mib
            * 1048576 <= usize::MAX),
{
    let c = k.concurrency as u64;
    proof {
        lemma_u32_product(k.concurrency, k.cores_per_component);
        lemma_u32_product(k.concurrency, k.mems_per_component);
        lemma_u32_product(k.concurrency, k.tables_per_component);
    }
    c * (k.cores_per_component as u64) <= u32::MAX as u64
        && c * (k.mems_per_component as u64) <= u32::MAX as u64
        && c * (k.tables_per_component as u64) <= u32::MAX as u64
        && (k.max_memory_mib as u64) * 1048576u64 <= usize::MAX as u64
}

/// The limits for `k`: each per-component figure as given, each total that
/// figure times the concurrency, one fiber stack and one warm slot per
/// in-flight instance, and the memory cap in bytes.
pub fn pooling_plan(k: &PoolKnobs) -> (p: PoolingPlan)
    requires
        knobs_fit(*k),
    ensures
        p.max_core_instances_per_component == k.cores_per_component,
        p.max_memories_per_component == k.mems_per_component,
        p.max_tables_per_component == k.tables_per_component,
        p.total_component_instances == k.concurrency,
        p.total_core_instances == k.concurrency * k.cores_per_component,
        p.total_memories == k.concurrency * k.mems_per_component,
        p.total_tables == k.concurrency * k.tables_per_component,
        p.total_stacks == k.concurrency,
        p.max_component_instance_size == MAX_COMPONENT_INSTANCE_SIZE,
        p.max_memory_size == k.max_memory_mib * MIB,
        p.max_unused_warm_slots == k.concurrency,
        p.memory_guard_size == MEMORY_GUARD_SIZE,
{
    PoolingPlan {
        max_core_instances_per_component: k.cores_per_component,
        max_memories_per_component: k.mems_per_component,
        max_tables_per_component: k.tables_per_component,
        total_component_instances: k.concurrency,
        total_core_instances: k.concurrency * k.cores_per_component,
        total_memories: k.concurrency * k.mems_per_component,
        total_tables: k.concurrency * k.tables_per_component,
        total_stacks: k.concurrency,
        max_component_instance_size: MAX_COMPONENT_INSTANCE_SIZE,
        max_memory_size: k.max_memory_mib as usize * MIB,
        max_unused_warm_slots: k.concurrency,
        memory_guard_size: MEMORY_GUARD_SIZE,
    }
}

} // verus!
