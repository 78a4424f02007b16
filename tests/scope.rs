use signal_scope::dispatch::dispatch;
use signal_scope::scope::{Next, Phase, ScopeRun, WorkExit};
use signal_scope::table::{slot_of, HandlerTable, SLOT_COUNT};

const SIGUSR1: i32 = 10;
const SIGUSR2: i32 = 12;
const SIGKILL: i32 = 9;

/// Delivers `signo` through the table: runs the dispatched handle's callback, which here
/// adds one to the counter kept for that handle.
fn deliver(table: &HandlerTable<usize>, signo: i32, counters: &mut [u32], seen: &mut Vec<u8>) {
    if let Some((h, sig)) = dispatch(table, signo, true) {
        counters[h] += 1;
        seen.push(sig);
    }
}

#[test]
fn counter_scope_returns_value_and_cleans_up() {
    let mut table: HandlerTable<usize> = HandlerTable::new();
    let slot = slot_of(SIGUSR1).unwrap();
    let mut counters = [0u32; 1];
    let mut seen = Vec::new();
    let mut run = ScopeRun::begin(&mut table, slot, 0);
    assert_eq!(run.registered(&mut table, true), Next::RunWork);
    let result = {
        deliver(&table, SIGUSR1, &mut counters, &mut seen);
        deliver(&table, SIGUSR1, &mut counters, &mut seen);
        deliver(&table, SIGUSR1, &mut counters, &mut seen);
        42
    };
    run.finish(&mut table, WorkExit::Returned);
    assert_eq!(result, 42);
    assert_eq!(counters[0], 3);
    assert_eq!(seen, vec![10u8, 10, 10]);
    assert_eq!(table.get(slot), None);
    assert!(run.done());
}

#[test]
fn nested_scope_shadows_then_restores_outer() {
    let mut table: HandlerTable<usize> = HandlerTable::new();
    let slot = slot_of(SIGUSR1).unwrap();
    let mut counters = [0u32; 2];
    let mut seen = Vec::new();
    let mut outer = ScopeRun::begin(&mut table, slot, 0);
    assert_eq!(outer.registered(&mut table, true), Next::RunWork);
    let mut inner = ScopeRun::begin(&mut table, slot, 1);
    assert_eq!(inner.registered(&mut table, true), Next::RunWork);
    deliver(&table, SIGUSR1, &mut counters, &mut seen);
    assert_eq!(counters, [0, 1]);
    inner.finish(&mut table, WorkExit::Returned);
    assert_eq!(table.get(slot), Some(0));
    deliver(&table, SIGUSR1, &mut counters, &mut seen);
    assert_eq!(counters, [1, 1]);
    outer.finish(&mut table, WorkExit::Returned);
    assert_eq!(table.get(slot), None);
}

#[test]
fn refused_registration_leaves_slot_empty() {
    let mut table: HandlerTable<usize> = HandlerTable::new();
    let slot = slot_of(SIGKILL).unwrap();
    let mut run = ScopeRun::begin(&mut table, slot, 0);
    assert_eq!(table.get(slot), Some(0));
    assert_eq!(run.registered(&mut table, false), Next::ReportError);
    assert_eq!(table.get(slot), None);
    assert!(run.done());
    assert!(!run.running());
}

#[test]
fn unwound_work_restores_like_returned_work() {
    let mut table: HandlerTable<usize> = HandlerTable::new();
    let slot = slot_of(SIGUSR1).unwrap();
    let mut outer = ScopeRun::begin(&mut table, slot, 3);
    outer.registered(&mut table, true);
    let mut inner = ScopeRun::begin(&mut table, slot, 4);
    inner.registered(&mut table, true);
    assert!(inner.running());
    inner.finish(&mut table, WorkExit::Unwound);
    assert_eq!(table.get(slot), Some(3));
    assert!(inner.done());
    outer.finish(&mut table, WorkExit::Unwound);
    assert_eq!(table.get(slot), None);
}

#[test]
fn no_scope_means_empty_lookup_everywhere() {
    let table: HandlerTable<usize> = HandlerTable::new();
    for slot in 0..SLOT_COUNT {
        assert_eq!(table.get(slot), None);
    }
    assert_eq!(dispatch(&table, SIGUSR1, true), None);
}

#[test]
fn repeated_delivery_dispatches_each_time() {
    let mut table: HandlerTable<usize> = HandlerTable::new();
    let slot = slot_of(SIGUSR2).unwrap();
    let mut run = ScopeRun::begin(&mut table, slot, 7);
    run.registered(&mut table, true);
    assert_eq!(dispatch(&table, SIGUSR2, true), Some((7, 12)));
    assert_eq!(dispatch(&table, SIGUSR2, true), Some((7, 12)));
    run.finish(&mut table, WorkExit::Returned);
}

#[test]
fn other_signals_are_untouched() {
    let mut table: HandlerTable<usize> = HandlerTable::new();
    let mut held = ScopeRun::begin(&mut table, slot_of(SIGUSR2).unwrap(), 5);
    held.registered(&mut table, true);
    let mut run = ScopeRun::begin(&mut table, slot_of(SIGUSR1).unwrap(), 6);
    run.registered(&mut table, true);
    assert_eq!(table.get(12), Some(5));
    assert_eq!(dispatch(&table, SIGUSR2, true), Some((5, 12)));
    run.finish(&mut table, WorkExit::Returned);
    assert_eq!(table.get(12), Some(5));
    assert_eq!(table.get(10), None);
}

#[test]
fn dispatch_needs_event_info() {
    let mut table: HandlerTable<usize> = HandlerTable::new();
    let _run = ScopeRun::begin(&mut table, 10, 1);
    assert_eq!(dispatch(&table, SIGUSR1, false), None);
    assert_eq!(dispatch(&table, SIGUSR1, true), Some((1, 10)));
}

#[test]
fn out_of_range_signals_have_no_slot() {
    assert_eq!(slot_of(-1), None);
    assert_eq!(slot_of(64), None);
    assert_eq!(slot_of(i32::MAX), None);
    assert_eq!(slot_of(0), Some(0));
    assert_eq!(slot_of(63), Some(63));
    let table: HandlerTable<usize> = HandlerTable::new();
    assert_eq!(dispatch(&table, -5, true), None);
    assert_eq!(dispatch(&table, 1000, true), None);
}

#[test]
fn largest_slot_round_trip() {
    let mut table: HandlerTable<usize> = HandlerTable::new();
    assert_eq!(table.replace(63, Some(9)), None);
    assert_eq!(dispatch(&table, 63, true), Some((9, 63)));
    assert_eq!(table.replace(63, None), Some(9));
    assert_eq!(table.get(63), None);
}

#[test]
fn phases_follow_the_run() {
    let mut table: HandlerTable<usize> = HandlerTable::new();
    let mut run = ScopeRun::begin(&mut table, 2, 0);
    assert!(!run.running());
    assert!(!run.done());
    run.registered(&mut table, true);
    assert!(run.running());
    run.finish(&mut table, WorkExit::Returned);
    assert!(run.done());
    assert_ne!(Phase::Completed, Phase::Unwound);
}
