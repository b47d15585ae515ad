use vstd::prelude::*;
use vstd::arithmetic::power2::pow2;
use crate::runner::TimedRunner;
use crate::trim::{setup_prover, ProvingKey, SrsCapacity, TrimError};

verus! {

/// Everything one coinbase benchmark run needs once the SRS is loaded: the
/// trimmed key, the degree it was trimmed to, how long the background sampler
/// watches, and the timed runner for the proof loop. The caller performs the
/// proof calls and clock readings and drives the runner with them.
pub struct CoinbaseBenchPlan {
    pub key: ProvingKey,
    pub degree: u32,
    pub sampler_secs: u64,
    pub runner: TimedRunner,
}

/// Prepares the timed proof run for a trimmed key: a run of `min_elapse`
/// minutes, with no iteration recorded yet.
pub fn prove_by_degree(key: &ProvingKey, min_elapse: u64) -> (r: TimedRunner)
    requires
        min_elapse <= 307_445_734,
    ensures
        r.wf(),
        r.budget_ns == min_elapse * 60_000_000_000,
        r.elapsed_ns == 0,
        r.samples@.len() == 0,
{
    let secs = min_elapse * 60;
    TimedRunner::new(secs * 1_000_000_000)
}

/// Plans the whole coinbase benchmark for an exponent: trims the SRS to
/// degree two to the `exponent`, watches background metrics for six minutes,
/// and times the proof loop for one minute. An exponent beyond the SRS's
/// capacity is rejected before anything runs.
pub fn bench(srs: &SrsCapacity, exponent: u32) -> (r: Result<CoinbaseBenchPlan, TrimError>)
    ensures
        pow2(exponent as nat) <= srs.max_degree as nat ==> (r matches Ok(plan) && {
            &&& plan.key.wf()
            &&& plan.key.degree as nat == pow2(exponent as nat)
            &&& plan.degree == plan.key.degree
            &&& plan.sampler_secs == 360
            &&& plan.runner.wf()
            &&& plan.runner.budget_ns == 60_000_000_000
            &&& plan.runner.elapsed_ns == 0
            &&& plan.runner.samples@.len() == 0
        }),
        pow2(exponent as nat) > srs.max_degree as nat ==> r == Err::<CoinbaseBenchPlan, TrimError>(
            TrimError::ExceedsCapacity,
        ),
{
    match setup_prover(srs, exponent) {
        Ok((key, degree)) => {
            let runner = prove_by_degree(&key, 1);
            Ok(CoinbaseBenchPlan { key, degree, sampler_secs: 6 * 60, runner })
        },
        Err(e) => Err(e),
    }
}

} // verus!
