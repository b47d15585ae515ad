use provebench::runner::{run_to_completion, TimedRunner};

#[test]
fn record_stops_exactly_when_budget_is_reached() {
    let mut runner = TimedRunner::new(100);
    assert!(!runner.record(60));
    assert!(runner.record(50));
    let report = runner.finish();
    assert_eq!(report.iterations, 2);
    assert_eq!(report.total_ns, 110);
    assert!(report.total_ns >= report.budget_ns);
}

#[test]
fn run_completes_the_in_flight_call() {
    // One call longer than the whole budget still completes before the stop.
    let mut runner = TimedRunner::new(10);
    assert!(runner.record(500));
    let report = runner.finish();
    assert_eq!(report.iterations, 1);
    assert_eq!(report.total_ns, 500);
}

#[test]
fn run_to_completion_counts_whole_iterations() {
    let latencies = vec![30u64, 30, 30, 30];
    let report = run_to_completion(100, &latencies).unwrap();
    assert_eq!(report.iterations, 4);
    assert_eq!(report.total_ns, 120);

    let report = run_to_completion(90, &latencies).unwrap();
    assert_eq!(report.iterations, 3);
    assert_eq!(report.total_ns, 90);
}

#[test]
fn run_with_zero_budget_needs_no_iteration() {
    let latencies = vec![30u64, 30];
    let report = run_to_completion(0, &latencies).unwrap();
    assert_eq!(report.iterations, 0);
    assert_eq!(report.total_ns, 0);
}

#[test]
fn run_with_positive_budget_makes_at_least_one_iteration() {
    let latencies = vec![5u64];
    let report = run_to_completion(1, &latencies).unwrap();
    assert_eq!(report.iterations, 1);
    assert_eq!(report.total_ns, 5);
}

#[test]
fn run_out_of_samples_gives_no_report() {
    let latencies = vec![10u64, 10];
    assert!(run_to_completion(1000, &latencies).is_none());
}

#[test]
fn iteration_count_is_monotonic_in_the_budget() {
    let latencies = vec![17u64, 3, 25, 40, 9, 9, 9, 120, 1];
    let mut previous = 0usize;
    for budget in [0u64, 1, 17, 18, 45, 100, 200, 233] {
        let report = run_to_completion(budget, &latencies).unwrap();
        assert!(report.iterations >= previous);
        previous = report.iterations;
    }
}
