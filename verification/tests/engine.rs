use host_lib::engine::{
    knob, parse_decimal, plan_fits, pool_size, pooling_plan, PoolKnobs, DEFAULT_CONCURRENCY,
    MAX_COMPONENT_INSTANCE_SIZE, MEMORY_GUARD_SIZE, MIB,
};

#[test]
fn decimal_parsing_follows_from_str() {
    for s in ["0", "7", "+7", "007", "4294967295", "", "+", "-", "-1", " 1", "1 ", "1_0", "++1", "4294967296", "12a"] {
        let expected: Option<u32> = s.parse().ok();
        assert_eq!(parse_decimal(s, u32::MAX as u64).map(|v| v as u32), expected, "input {s:?}");
    }
    assert_eq!(parse_decimal("18446744073709551615", u64::MAX), Some(u64::MAX));
    assert_eq!(parse_decimal("18446744073709551616", u64::MAX), None);
    assert_eq!(parse_decimal("10", 9), None);
    assert_eq!(parse_decimal("9", 9), Some(9));
}

#[test]
fn knob_falls_back_to_default() {
    assert_eq!(knob(Some("256"), 128), 256);
    assert_eq!(knob(Some("lots"), 128), 128);
    assert_eq!(knob(Some(""), 128), 128);
    assert_eq!(knob(None, 128), 128);
}

#[test]
fn pool_size_defaults_to_64() {
    assert_eq!(pool_size(None), 64);
    assert_eq!(pool_size(Some("8")), 8);
    assert_eq!(pool_size(Some("0")), 0);
    assert_eq!(pool_size(Some("x")), 64);
}

#[test]
fn default_plan() {
    let k = PoolKnobs::from_settings(None, None, None, None, None);
    assert_eq!(k.concurrency, DEFAULT_CONCURRENCY);
    assert!(plan_fits(&k));
    let p = pooling_plan(&k);
    assert_eq!(p.total_component_instances, 128);
    assert_eq!(p.total_core_instances, 128 * 384);
    assert_eq!(p.total_memories, 128 * 32);
    assert_eq!(p.total_tables, 128 * 64);
    assert_eq!(p.total_stacks, 128);
    assert_eq!(p.max_unused_warm_slots, 128);
    assert_eq!(p.max_core_instances_per_component, 384);
    assert_eq!(p.max_memories_per_component, 32);
    assert_eq!(p.max_tables_per_component, 64);
    assert_eq!(p.max_memory_size, 128 * 1024 * 1024);
    assert_eq!(p.max_component_instance_size, 32 * 1024 * 1024);
    assert_eq!(MAX_COMPONENT_INSTANCE_SIZE, 32 * MIB);
    assert_eq!(p.memory_guard_size, 64 * 1024);
    assert_eq!(MEMORY_GUARD_SIZE, 65536);
}

#[test]
fn overridden_plan() {
    let k = PoolKnobs::from_settings(Some("2"), Some("10"), Some("x"), Some("3"), Some("1"));
    assert_eq!(k.mems_per_component, 32);
    let p = pooling_plan(&k);
    assert_eq!(p.total_core_instances, 20);
    assert_eq!(p.total_memories, 64);
    assert_eq!(p.total_tables, 6);
    assert_eq!(p.max_memory_size, 1024 * 1024);
}

#[test]
fn oversized_plan_does_not_fit() {
    let k = PoolKnobs::from_settings(Some("65536"), Some("65536"), None, None, None);
    assert!(!plan_fits(&k));
    let k = PoolKnobs::from_settings(Some("65536"), Some("65535"), Some("1"), Some("1"), None);
    assert!(plan_fits(&k));
}
