use hpc_core::metrics::{
    group_samples, mean_us, note_alloc, p95_us, record, sorted_samples, summary_stats,
    throughput_bytes_per_sec, Metrics,
};

#[test]
fn record_groups_by_name_in_first_occurrence_order() {
    let mut m = Metrics::new();
    record(&mut m, "enqueue_write", 10);
    record(&mut m, "wait", 5);
    record(&mut m, "enqueue_write", 30);

    let groups = group_samples(&m);
    assert_eq!(groups.len(), 2);
    assert_eq!(groups[0].name, "enqueue_write");
    assert_eq!(groups[0].samples, vec![10, 30]);
    assert_eq!(groups[1].name, "wait");
    assert_eq!(groups[1].samples, vec![5]);
}

#[test]
fn sorting_orders_a_copy_of_the_samples() {
    let samples = vec![9u64, 1, 7, 1, 3];
    let sorted = sorted_samples(&samples);
    assert_eq!(sorted, vec![1, 1, 3, 7, 9]);
    assert_eq!(samples, vec![9, 1, 7, 1, 3]);
}

#[test]
fn mean_and_p95_formulas() {
    // 1..=20: sum 210, mean 10; p95 index (20*95/100)-1 = 18, value 19.
    let mut samples: Vec<u64> = (1..=20).collect();
    samples.reverse();
    let sorted = sorted_samples(&samples);
    assert_eq!(mean_us(&sorted), 10);
    assert_eq!(p95_us(&sorted), 19);

    // A single sample is both its mean and its 95th percentile.
    let one = vec![42u64];
    assert_eq!(mean_us(&one), 42);
    assert_eq!(p95_us(&one), 42);

    // Mean rounds down: (1 + 2) / 2 == 1.
    let two = vec![1u64, 2];
    assert_eq!(mean_us(&two), 1);
    // 2 * 95 / 100 == 1, so the 95th percentile reads index 0.
    assert_eq!(p95_us(&two), 1);
}

#[test]
fn summary_covers_each_name() {
    let mut m = Metrics::new();
    for v in [10u64, 20, 30] {
        record(&mut m, "enqueue_write", v);
    }
    record(&mut m, "wait", 100);

    let stats = summary_stats(&mut m);
    assert_eq!(stats.len(), 2);
    assert_eq!(stats[0].name, "enqueue_write");
    assert_eq!(stats[0].count, 3);
    assert_eq!(stats[0].mean_us, 20);
    // Index (3 * 95 / 100) - 1 == 1 of the ascending samples.
    assert_eq!(stats[0].p95_us, 20);
    assert_eq!(stats[1].name, "wait");
    assert_eq!(stats[1].count, 1);
    assert_eq!(stats[1].mean_us, 100);
    assert_eq!(stats[1].p95_us, 100);

    // The summary drained the samples: a second one reports nothing.
    assert!(summary_stats(&mut m).is_empty());
    assert!(group_samples(&m).is_empty());
}

#[test]
fn throughput_is_recomputed_from_totals() {
    // 1000 bytes over 2000 microseconds: 500000 bytes per second.
    assert_eq!(throughput_bytes_per_sec(1000, 2000), Some(500000));
    // No elapsed time, no figure.
    assert_eq!(throughput_bytes_per_sec(1000, 0), None);
    // Exact integer division, rounded down.
    assert_eq!(throughput_bytes_per_sec(3, 7), Some(428571));
}

#[test]
fn allocation_counters_accumulate() {
    let mut m = Metrics::new();
    assert_eq!(m.allocs(), 0);
    assert_eq!(m.alloc_bytes(), 0);
    note_alloc(&mut m, 1024);
    note_alloc(&mut m, 4096);
    assert_eq!(m.allocs(), 2);
    assert_eq!(m.alloc_bytes(), 5120);
    // The byte counter saturates instead of wrapping.
    note_alloc(&mut m, u64::MAX);
    assert_eq!(m.allocs(), 3);
    assert_eq!(m.alloc_bytes(), u64::MAX);
}
