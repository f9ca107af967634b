use install_loader::progress::ProgressCounter;

#[test]
fn counter_emits_past_interval_and_at_end() {
    let mut counter = ProgressCounter::new(100, 10);
    assert_eq!(counter.update(5), None);
    assert_eq!(counter.update(10), Some(15));
    assert_eq!(counter.update(84), Some(99));
    assert_eq!(counter.update(1), Some(100));
}

#[test]
fn counter_emits_final_100_even_below_interval() {
    let mut counter = ProgressCounter::new(1000, 1_000_000);
    assert_eq!(counter.update(999), None);
    assert_eq!(counter.update(1), Some(100));
}

#[test]
fn counter_never_emits_twice_for_same_byte_count() {
    let mut counter = ProgressCounter::new(100, 0);
    assert_eq!(counter.update(100), Some(100));
    assert_eq!(counter.update(0), None);
    assert_eq!(counter.update(0), None);
}

#[test]
fn counter_percentages_are_non_decreasing_and_end_at_100() {
    let mut counter = ProgressCounter::new(5000, 7);
    let mut emitted: Vec<usize> = Vec::new();
    let chunks = [13usize, 1, 1, 900, 2, 4000, 50, 32, 1];
    let mut total = 0usize;
    for chunk in chunks {
        total += chunk;
        if let Some(p) = counter.update(chunk) {
            emitted.push(p);
        }
    }
    assert_eq!(total, 5000);
    for pair in emitted.windows(2) {
        assert!(pair[0] <= pair[1]);
    }
    assert_eq!(*emitted.last().unwrap(), 100);
}
