use provebench::msm::{bench, create_scalar_bases_plan, variable_base_bls12_377, MsmCurve};

#[test]
fn msm_bench_reports_one_measurement_per_curve() {
    // Four thousand ninety-six scalar/base pairs, measured once per curve.
    let (bls, edwards) = bench(4096, 123_456, 654_321);

    assert_eq!(bls.curve, MsmCurve::Bls12_377);
    assert_eq!(bls.pairs, 4096);
    assert_eq!(bls.iterations, 1);
    assert_eq!(bls.elapsed_ns, 123_456);
    assert!(bls.elapsed_ns > 0);

    assert_eq!(edwards.curve, MsmCurve::EdwardsBls12);
    assert_eq!(edwards.pairs, 4096);
    assert_eq!(edwards.iterations, 1);
    assert_eq!(edwards.elapsed_ns, 654_321);
    assert!(edwards.elapsed_ns > 0);
}

#[test]
fn scalar_bases_plan_draws_one_of_each_per_pair() {
    let plan = create_scalar_bases_plan(4096);
    assert_eq!(plan.bases, 4096);
    assert_eq!(plan.scalars, 4096);
}

#[test]
fn bls12_377_report_carries_the_measurement() {
    let report = variable_base_bls12_377(2048, 42);
    assert_eq!(report.curve, MsmCurve::Bls12_377);
    assert_eq!(report.pairs, 2048);
    assert_eq!(report.iterations, 1);
    assert_eq!(report.elapsed_ns, 42);
}
