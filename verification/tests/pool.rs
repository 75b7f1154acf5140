use host_lib::pool::{PoolLedger, ReleaseAction};

#[test]
fn pool_has_at_least_one_slot() {
    let p = PoolLedger::new(0);
    assert_eq!(p.capacity(), 1);
    assert_eq!(p.pending(), 1);
    let p = PoolLedger::new(64);
    assert_eq!(p.capacity(), 64);
    assert_eq!(p.idle(), 0);
}

#[test]
fn prefill_fills_every_slot() {
    let mut p = PoolLedger::new(3);
    while p.pending() > 0 {
        p.fill();
    }
    assert_eq!(p.idle(), 3);
}

#[test]
fn committed_instance_returns_to_the_pool() {
    let mut p = PoolLedger::new(2);
    p.fill();
    p.fill();
    p.check_out();
    assert_eq!(p.idle(), 1);
    assert_eq!(p.release(true, true, true), ReleaseAction::ReturnToPool);
    assert_eq!(p.idle(), 2);
}

#[test]
fn uncommitted_instance_is_rebuilt() {
    let mut p = PoolLedger::new(1);
    p.fill();
    p.check_out();
    assert_eq!(p.release(true, false, true), ReleaseAction::Rebuild);
    assert_eq!(p.idle(), 0);
    assert_eq!(p.pending(), 1);
    p.fill();
    assert_eq!(p.idle(), 1);
}

#[test]
fn without_runtime_the_slot_is_lost() {
    let mut p = PoolLedger::new(2);
    p.fill();
    p.fill();
    p.check_out();
    assert_eq!(p.release(true, false, false), ReleaseAction::Discard);
    assert_eq!(p.idle(), 1);
    assert_eq!(p.pending(), 0);
}

#[test]
fn failed_rebuild_loses_the_slot() {
    let mut p = PoolLedger::new(1);
    p.fill();
    p.check_out();
    assert_eq!(p.release(true, false, true), ReleaseAction::Rebuild);
    p.fail_fill();
    assert_eq!(p.pending(), 0);
    assert_eq!(p.idle(), 0);
}

#[test]
fn empty_handle_changes_nothing() {
    let mut p = PoolLedger::new(1);
    p.fill();
    p.check_out();
    assert_eq!(p.release(false, true, true), ReleaseAction::Nothing);
    assert_eq!(p.idle(), 0);
}

#[test]
fn pool_is_full_again_once_rebuilds_finish() {
    let mut p = PoolLedger::new(3);
    while p.pending() > 0 {
        p.fill();
    }
    p.check_out();
    p.check_out();
    assert_eq!(p.release(true, false, true), ReleaseAction::Rebuild);
    assert_eq!(p.idle() + p.pending(), 2);
    p.fill();
    assert_eq!(p.pending(), 0);
    assert_eq!(p.idle(), 2);
    assert_eq!(p.release(true, true, true), ReleaseAction::ReturnToPool);
    assert_eq!(p.idle(), p.capacity());
}
