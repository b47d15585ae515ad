use provebench::stats::{summarize, throughput_per_sec};

#[test]
fn summarize_reports_exact_statistics() {
    let samples = vec![5u64, 3, 9];
    let st = summarize(&samples).unwrap();
    assert_eq!(st.count, 3);
    assert_eq!(st.total_ns, 17);
    assert_eq!(st.min_ns, 3);
    assert_eq!(st.max_ns, 9);
    assert_eq!(st.mean_ns, 5);
}

#[test]
fn summarize_single_sample() {
    let samples = vec![7u64];
    let st = summarize(&samples).unwrap();
    assert_eq!(st.count, 1);
    assert_eq!(st.total_ns, 7);
    assert_eq!(st.min_ns, 7);
    assert_eq!(st.max_ns, 7);
    assert_eq!(st.mean_ns, 7);
}

#[test]
fn summarize_empty_run_has_no_summary() {
    let samples: Vec<u64> = vec![];
    assert!(summarize(&samples).is_none());
}

#[test]
fn throughput_rounds_down() {
    assert_eq!(throughput_per_sec(10, 2_000_000_000), 5);
    assert_eq!(throughput_per_sec(7, 3_000_000_000), 2);
    assert_eq!(throughput_per_sec(1, 1), 1_000_000_000);
}
