use counter::counter::{try_into_inner, AtomicCounter, ConsistentCounter};
use std::sync::Arc;

#[test]
fn sequential_scenario_from_zero() {
    let counter = ConsistentCounter::new(0);
    assert_eq!(counter.reset(), 0);
    assert_eq!(counter.add(5), 0);
    assert_eq!(counter.increase(), 5);
    assert_eq!(counter.get(), 6);
}

#[test]
fn new_and_default_start_values() {
    assert_eq!(ConsistentCounter::new(42).get(), 42);
    assert_eq!(ConsistentCounter::new(42).into_inner(), 42);
    assert_eq!(ConsistentCounter::default().get(), 0);
}

#[test]
fn reset_returns_drained_amount() {
    let counter = ConsistentCounter::new(10);
    assert_eq!(counter.reset(), 10);
    assert_eq!(counter.get(), 0);
    counter.add(7);
    assert_eq!(counter.reset(), 7);
    assert_eq!(counter.reset(), 0);
}

#[test]
fn consecutive_gets_agree() {
    let counter = ConsistentCounter::new(3);
    counter.add(4);
    let first = counter.get();
    let second = counter.get();
    assert_eq!(first, 7);
    assert_eq!(first, second);
}

#[test]
fn add_zero_changes_nothing() {
    let counter = ConsistentCounter::new(9);
    assert_eq!(counter.add(0), 9);
    assert_eq!(counter.get(), 9);
}

#[test]
fn add_wraps_at_word_size() {
    let counter = ConsistentCounter::new(usize::MAX);
    assert_eq!(counter.increase(), usize::MAX);
    assert_eq!(counter.get(), 0);
    counter.add(usize::MAX);
    assert_eq!(counter.add(2), usize::MAX);
    assert_eq!(counter.get(), 1);
}

#[test]
fn interleaved_increases_sum_exactly() {
    let counter = Arc::new(ConsistentCounter::new(0));
    let handles: Vec<Arc<ConsistentCounter>> = (0..8).map(|_| counter.clone()).collect();
    for _ in 0..1_000 {
        for h in &handles {
            h.increase();
        }
    }
    drop(handles);
    assert_eq!(try_into_inner(counter).unwrap(), 8_000);
}

#[test]
fn drains_plus_remainder_equal_added() {
    let counter = Arc::new(ConsistentCounter::new(0));
    let drainer = counter.clone();
    let adders: Vec<Arc<ConsistentCounter>> = (0..6).map(|_| counter.clone()).collect();
    let mut drained = 0usize;
    for round in 0..1_000usize {
        for (i, a) in adders.iter().enumerate() {
            a.add(i);
            if (round + i) % 3 == 0 {
                drained += drainer.reset();
            }
        }
    }
    drop(adders);
    drop(drainer);
    let remaining = try_into_inner(counter).unwrap();
    assert!(remaining > 0);
    assert_eq!(drained + remaining, (0 + 1 + 2 + 3 + 4 + 5) * 1_000);
}

#[test]
fn consuming_with_a_second_handle_fails() {
    let counter = Arc::new(ConsistentCounter::new(0));
    let other = counter.clone();
    counter.add(3);
    let err = try_into_inner(counter).unwrap_err();
    assert!(Arc::ptr_eq(&err.handle, &other));
    assert_eq!(err.handle.add(2), 3);
    drop(other);
    assert_eq!(try_into_inner(err.handle).unwrap(), 5);
}
