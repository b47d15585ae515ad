use vstd::prelude::*;
use vstd::arithmetic::div_mod::{lemma_fundamental_div_mod, lemma_mod_bound};

verus! {

/// One background resource reading: CPU load in permille and resident memory
/// in kilobytes.
#[derive(Clone, Copy, PartialEq, Eq, Structural, Debug)]
pub struct MetricsSample {
    pub cpu_permille: u64,
    pub memory_kb: u64,
}

/// The background metrics sampler's bookkeeping. The caller sleeps for the
/// fixed interval and attempts one reading per tick; the sampler counts the
/// ticks and keeps the readings that succeeded. A failed reading is skipped,
/// never aborts the run.
pub struct Sampler {
    pub interval_ms: u64,
    pub planned: u64,
    pub taken: u64,
    pub readings: Vec<MetricsSample>,
}

impl Sampler {
    pub open spec fn wf(self) -> bool {
        &&& self.interval_ms > 0
        &&& self.taken <= self.planned
        &&& self.readings@.len() <= self.taken
    }

    /// Plans a sampling window: one tick every `interval_ms` over
    /// `duration_ms` yields `duration_ms / interval_ms` ticks.
    pub fn plan(duration_ms: u64, interval_ms: u64) -> (r: Sampler)
        requires
            interval_ms > 0,
        ensures
            r.wf(),
            r.interval_ms == interval_ms,
            r.planned == duration_ms as int / interval_ms as int,
            r.taken == 0,
            r.readings@.len() == 0,
    {
        Sampler {
            interval_ms,
            planned: duration_ms / interval_ms,
            taken: 0,
            readings: Vec::new(),
        }
    }

    /// Counts one tick. A successful reading is kept; a failed one is skipped
    /// and the sampler carries on.
    pub fn tick(&mut self, reading: Option<MetricsSample>)
        requires
            old(self).wf(),
            old(self).taken < old(self).planned,
        ensures
            final(self).wf(),
            final(self).interval_ms == old(self).interval_ms,
            final(self).planned == old(self).planned,
            final(self).taken == old(self).taken + 1,
            reading matches Some(s) ==> final(self).readings@ == old(self).readings@.push(s),
            reading is None ==> final(self).readings@ == old(self).readings@,
    {
        self.taken = self.taken + 1;
        match reading {
            Some(s) => self.readings.push(s),
            None => (),
        }
    }

    /// Whether every planned tick has happened.
    pub fn done(&self) -> (r: bool)
        ensures
            r <==> self.taken == self.planned,
    {
        self.taken == self.planned
    }
}

/// A sampling window of duration `S` at a fixed interval plans a number of
/// ticks within one unit of `S / interval`: the planned count `n` satisfies
/// `n * interval <= S < (n + 1) * interval`.
pub proof fn lemma_planned_samples_tight(duration_ms: u64, interval_ms: u64)
    requires
        interval_ms > 0,
    ensures
        (duration_ms as int / interval_ms as int) * interval_ms <= duration_ms,
        duration_ms < ((duration_ms as int / interval_ms as int) + 1) * interval_ms,
{
    let x = duration_ms as int;
    let d = interval_ms as int;
    lemma_fundamental_div_mod(x, d);
    lemma_mod_bound(x, d);
    assert((x / d) * d <= x && x < ((x / d) + 1) * d) by (nonlinear_arith)
        requires
            x == d * (x / d) + x % d,
            0 <= x % d < d,
    ;
}

} // verus!
