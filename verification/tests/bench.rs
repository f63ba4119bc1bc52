use raybench::bench::{Action, Bench};

#[test]
fn phases_run_in_order() {
    let mut b = Bench::new(2, 1);
    assert_eq!(b.next_action(), Action::WarmupPass);
    b.record_pass(111);
    assert_eq!(b.next_action(), Action::WarmupPass);
    b.record_pass(222);
    assert_eq!(b.next_action(), Action::SequentialPass);
    b.record_pass(10);
    assert_eq!(b.next_action(), Action::ParallelPass);
    b.record_pass(5);
    assert_eq!(b.next_action(), Action::Finished);
}

#[test]
fn warmup_discards_timing() {
    let mut b = Bench::new(1, 1);
    b.record_pass(987);
    assert_eq!(b.warmup_done, 1);
    assert!(b.sequential_runs.is_empty());
    assert!(b.parallel_runs.is_empty());
}

#[test]
fn report_means_and_speedup_from_fixed_durations() {
    // fixed elapsed durations in place of real clock reads
    let mut b = Bench::new(3, 2);
    for _ in 0..3 {
        b.record_pass(0);
    }
    b.record_pass(10);
    b.record_pass(20);
    b.record_pass(3);
    b.record_pass(4);
    assert_eq!(b.sequential_runs, vec![10, 20]);
    assert_eq!(b.parallel_runs, vec![3, 4]);
    let report = b.report().unwrap();
    assert_eq!(report.sequential_mean, (10 + 20) / 2);
    assert_eq!(report.parallel_mean, (3 + 4) / 2);
    assert_eq!(report.speedup, 15 / 3);
}

#[test]
fn mean_nanos_truncates() {
    assert_eq!(raybench::bench::mean_nanos(&vec![1, 2]), 1);
    assert_eq!(raybench::bench::mean_nanos(&vec![7]), 7);
    assert_eq!(raybench::bench::mean_nanos(&vec![u64::MAX, u64::MAX]), u64::MAX);
}

#[test]
fn report_refuses_zero_parallel_mean() {
    let mut b = Bench::new(0, 1);
    b.record_pass(10);
    b.record_pass(0);
    assert_eq!(b.report(), None);
}
