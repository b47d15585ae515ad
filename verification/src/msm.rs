use vstd::prelude::*;

verus! {

/// The elliptic curve one MSM benchmark runs over.
#[derive(Clone, Copy, PartialEq, Eq, Structural, Debug)]
pub enum MsmCurve {
    Bls12_377,
    EdwardsBls12,
}

/// How many random group elements one MSM benchmark draws: one base and one
/// scalar for each of the `size` pairs.
#[derive(Clone, Copy, PartialEq, Eq, Structural, Debug)]
pub struct ScalarBasesPlan {
    pub bases: usize,
    pub scalars: usize,
}

/// Plans the random inputs of one MSM benchmark of the given size.
pub fn create_scalar_bases_plan(size: usize) -> (r: ScalarBasesPlan)
    ensures
        r.bases == size,
        r.scalars == size,
{
    ScalarBasesPlan { bases: size, scalars: size }
}

/// What one MSM benchmark reports: the curve, the number of scalar/base
/// pairs, and a single latency measurement, since the multiplication is
/// measured exactly once.
#[derive(Clone, Copy, PartialEq, Eq, Structural, Debug)]
pub struct MsmReport {
    pub curve: MsmCurve,
    pub pairs: usize,
    pub iterations: u64,
    pub elapsed_ns: u64,
}

/// Builds the report of the BLS12-377 measurement the caller made: `size`
/// scalar/base pairs, multiplied once, in `elapsed_ns` nanoseconds.
pub fn variable_base_bls12_377(size: usize, elapsed_ns: u64) -> (r: MsmReport)
    ensures
        r.curve == MsmCurve::Bls12_377,
        r.pairs == size,
        r.iterations == 1,
        r.elapsed_ns == elapsed_ns,
{
    let plan = create_scalar_bases_plan(size);
    MsmReport { curve: MsmCurve::Bls12_377, pairs: plan.bases, iterations: 1, elapsed_ns }
}

/// Builds the report of the Edwards-BLS12 measurement the caller made.
fn variable_base_edwards_bls12(size: usize, elapsed_ns: u64) -> (r: MsmReport)
    ensures
        r.curve == MsmCurve::EdwardsBls12,
        r.pairs == size,
        r.iterations == 1,
        r.elapsed_ns == elapsed_ns,
{
    let plan = create_scalar_bases_plan(size);
    MsmReport { curve: MsmCurve::EdwardsBls12, pairs: plan.bases, iterations: 1, elapsed_ns }
}

/// Assembles the MSM benchmark's results for both curves from the two
/// measurements the caller made on `size` scalar/base pairs.
pub fn bench(size: usize, bls_elapsed_ns: u64, edwards_elapsed_ns: u64) -> (r: (MsmReport, MsmReport))
    ensures
        r.0.curve == MsmCurve::Bls12_377,
        r.0.pairs == size,
        r.0.iterations == 1,
        r.0.elapsed_ns == bls_elapsed_ns,
        r.1.curve == MsmCurve::EdwardsBls12,
        r.1.pairs == size,
        r.1.iterations == 1,
        r.1.elapsed_ns == edwards_elapsed_ns,
{
    let bls = variable_base_bls12_377(size, bls_elapsed_ns);
    let edwards = variable_base_edwards_bls12(size, edwards_elapsed_ns);
    (bls, edwards)
}

} // verus!
