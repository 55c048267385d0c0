use visit_echo::counter::{visit_number, SharedCounter, VisitCounter};

#[test]
fn visit_number_is_the_successor() {
    assert_eq!(visit_number(0), 1);
    assert_eq!(visit_number(1), 2);
    assert_eq!(visit_number(41), 42);
    assert_eq!(visit_number(usize::MAX - 1), usize::MAX);
}

#[test]
fn visit_number_wraps_to_zero() {
    assert_eq!(visit_number(usize::MAX), 0);
}

#[test]
fn fresh_owned_counter_reads_zero() {
    let counter = VisitCounter::new();
    assert_eq!(counter.current(), 0);
}

#[test]
fn owned_counter_counts_up_without_gap_or_duplicate() {
    let mut counter = VisitCounter::new();
    let mut returned = Vec::new();
    for _ in 0..100 {
        returned.push(counter.increment_and_get());
    }
    let expected: Vec<usize> = (1..=100).collect();
    assert_eq!(returned, expected);
    assert_eq!(counter.current(), 100);
}

#[test]
fn owned_counter_reads_are_idempotent() {
    let mut counter = VisitCounter::new();
    counter.increment_and_get();
    counter.increment_and_get();
    counter.increment_and_get();
    for _ in 0..10 {
        assert_eq!(counter.current(), 3);
    }
    assert_eq!(counter.increment_and_get(), 4);
}

#[test]
fn fresh_shared_counter_reads_zero() {
    let counter = SharedCounter::new();
    assert_eq!(counter.current(), 0);
}

#[test]
fn shared_counter_returns_the_count_after_the_increment() {
    let counter = SharedCounter::new();
    assert_eq!(counter.increment_and_get(), 1);
    assert_eq!(counter.current(), 1);
    assert_eq!(counter.increment_and_get(), 2);
    assert_eq!(counter.increment_and_get(), 3);
    assert_eq!(counter.current(), 3);
}

#[test]
fn shared_counter_reads_are_idempotent() {
    let counter = SharedCounter::new();
    counter.increment_and_get();
    counter.increment_and_get();
    for _ in 0..10 {
        assert_eq!(counter.current(), 2);
    }
    assert_eq!(counter.increment_and_get(), 3);
}

#[test]
fn shared_counter_counts_through_shared_references() {
    let counter = SharedCounter::new();
    let first = &counter;
    let second = &counter;
    let mut returned = Vec::new();
    for round in 0..50 {
        if round % 2 == 0 {
            returned.push(first.increment_and_get());
        } else {
            returned.push(second.increment_and_get());
        }
    }
    returned.sort();
    let expected: Vec<usize> = (1..=50).collect();
    assert_eq!(returned, expected);
}
