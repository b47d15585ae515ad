use provebench::sampler::{MetricsSample, Sampler};

#[test]
fn plan_counts_ticks_within_one_of_the_ratio() {
    let sampler = Sampler::plan(10_000, 300);
    assert_eq!(sampler.planned, 33);
    // 33 ticks fit the window, a 34th would not.
    assert!(33 * 300 <= 10_000);
    assert!(10_000 < 34 * 300);
}

#[test]
fn plan_with_exact_divisor() {
    let sampler = Sampler::plan(360_000, 1_000);
    assert_eq!(sampler.planned, 360);
    assert_eq!(sampler.taken, 0);
    assert_eq!(sampler.readings.len(), 0);
}

#[test]
fn plan_shorter_than_interval_takes_no_sample() {
    let sampler = Sampler::plan(500, 1_000);
    assert_eq!(sampler.planned, 0);
}

#[test]
fn tick_skips_a_failed_reading_and_carries_on() {
    let mut sampler = Sampler::plan(3_000, 1_000);
    assert_eq!(sampler.planned, 3);
    sampler.tick(Some(MetricsSample { cpu_permille: 120, memory_kb: 4096 }));
    sampler.tick(None);
    sampler.tick(Some(MetricsSample { cpu_permille: 480, memory_kb: 8192 }));
    assert_eq!(sampler.taken, 3);
    assert_eq!(sampler.readings.len(), 2);
    assert_eq!(sampler.readings[0], MetricsSample { cpu_permille: 120, memory_kb: 4096 });
    assert_eq!(sampler.readings[1], MetricsSample { cpu_permille: 480, memory_kb: 8192 });
}

#[test]
fn done_exactly_after_the_planned_ticks() {
    let mut sampler = Sampler::plan(2_000, 1_000);
    assert!(!sampler.done());
    sampler.tick(None);
    assert!(!sampler.done());
    sampler.tick(None);
    assert!(sampler.done());
}
