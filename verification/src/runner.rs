use vstd::prelude::*;

verus! {

/// Cumulative duration, in nanoseconds, of the first `n` latency samples.
pub open spec fn prefix_sum_ns(s: Seq<u64>, n: int) -> int
    decreases n,
{
    if n <= 0 {
        0
    } else {
        prefix_sum_ns(s, n - 1) + s[n - 1]
    }
}

/// Cumulative duration of a whole latency sequence.
pub open spec fn total_ns_of(s: Seq<u64>) -> int {
    prefix_sum_ns(s, s.len() as int)
}

/// A run over the latency sequence `s` with wall-clock budget `b` stops after
/// exactly `n` iterations: the first `n` samples together reach the budget,
/// and no proper prefix does. The in-flight call is always completed, so the
/// budget is respected at iteration boundaries only.
pub open spec fn stops_after(s: Seq<u64>, b: int, n: int) -> bool {
    &&& 0 <= n <= s.len()
    &&& prefix_sum_ns(s, n) >= b
    &&& forall|m: int| 0 <= m < n ==> prefix_sum_ns(s, m) < b
}

pub proof fn lemma_prefix_sum_nonneg(s: Seq<u64>, n: int)
    ensures
        prefix_sum_ns(s, n) >= 0,
    decreases n,
{
    if n > 0 {
        lemma_prefix_sum_nonneg(s, n - 1);
    }
}

pub proof fn lemma_prefix_sum_mono(s: Seq<u64>, m: int, n: int)
    requires
        m <= n,
    ensures
        prefix_sum_ns(s, m) <= prefix_sum_ns(s, n),
    decreases n - m,
{
    if m < n {
        lemma_prefix_sum_mono(s, m, n - 1);
    }
}

/// The first `n` samples of two sequences that agree there sum alike.
pub proof fn lemma_prefix_sum_agree(s1: Seq<u64>, s2: Seq<u64>, n: int)
    requires
        forall|i: int| 0 <= i < n ==> s1[i] == s2[i],
    ensures
        prefix_sum_ns(s1, n) == prefix_sum_ns(s2, n),
    decreases n,
{
    if n > 0 {
        lemma_prefix_sum_agree(s1, s2, n - 1);
    }
}

pub proof fn lemma_prefix_sum_push(s: Seq<u64>, x: u64)
    ensures
        prefix_sum_ns(s.push(x), s.len() as int + 1) == prefix_sum_ns(s, s.len() as int) + x,
{
    lemma_prefix_sum_agree(s.push(x), s, s.len() as int);
}

/// The timed runner drives one benchmark configuration: it accumulates the
/// latency of each completed invocation until the wall-clock budget is
/// reached. The caller performs the invocation and the clock reading; the
/// runner decides, after every completed call, whether the run is over.
pub struct TimedRunner {
    pub budget_ns: u64,
    pub elapsed_ns: u64,
    pub samples: Vec<u64>,
}

/// What a finished run reports: how long it was asked to run, how long it
/// actually ran, and how many whole invocations that took.
#[derive(Clone, Copy, PartialEq, Eq, Structural, Debug)]
pub struct RunReport {
    pub budget_ns: u64,
    pub iterations: usize,
    pub total_ns: u64,
}

impl TimedRunner {
    /// The elapsed time is always exactly the sum of the recorded samples.
    pub open spec fn wf(self) -> bool {
        self.elapsed_ns == prefix_sum_ns(self.samples@, self.samples@.len() as int)
    }

    pub fn new(budget_ns: u64) -> (r: Self)
        ensures
            r.wf(),
            r.budget_ns == budget_ns,
            r.elapsed_ns == 0,
            r.samples@.len() == 0,
    {
        TimedRunner { budget_ns, elapsed_ns: 0, samples: Vec::new() }
    }

    /// Records one completed invocation's latency and says whether the run is
    /// over. The run is over exactly when the cumulative elapsed time has
    /// reached the budget, so a run never ends early, and ends only at an
    /// iteration boundary.
    pub fn record(&mut self, latency_ns: u64) -> (done: bool)
        requires
            old(self).wf(),
            old(self).elapsed_ns + latency_ns <= u64::MAX,
        ensures
            final(self).wf(),
            final(self).budget_ns == old(self).budget_ns,
            final(self).samples@ == old(self).samples@.push(latency_ns),
            final(self).elapsed_ns == old(self).elapsed_ns + latency_ns,
            done <==> final(self).elapsed_ns >= final(self).budget_ns,
    {
        proof {
            lemma_prefix_sum_push(self.samples@, latency_ns);
        }
        self.samples.push(latency_ns);
        self.elapsed_ns = self.elapsed_ns + latency_ns;
        self.elapsed_ns >= self.budget_ns
    }

    /// Summarizes a finished run. A finished run has spent at least its
    /// budget, and has completed at least one invocation whenever the budget
    /// was positive.
    pub fn finish(&self) -> (r: RunReport)
        requires
            self.wf(),
            self.elapsed_ns >= self.budget_ns,
        ensures
            r.budget_ns == self.budget_ns,
            r.iterations == self.samples@.len(),
            r.total_ns == self.elapsed_ns,
            r.total_ns >= r.budget_ns,
            r.budget_ns > 0 ==> r.iterations >= 1,
    {
        RunReport {
            budget_ns: self.budget_ns,
            iterations: self.samples.len(),
            total_ns: self.elapsed_ns,
        }
    }
}

/// Replays a whole run over a recorded latency sequence: invocations are
/// consumed in order until the cumulative time reaches the budget. The report
/// pins the stopping point exactly; the sequence that never reaches the
/// budget yields no report.
pub fn run_to_completion(budget_ns: u64, latencies: &Vec<u64>) -> (r: Option<RunReport>)
    requires
        total_ns_of(latencies@) <= u64::MAX,
    ensures
        r matches Some(rep) ==> {
            &&& stops_after(latencies@, budget_ns as int, rep.iterations as int)
            &&& rep.budget_ns == budget_ns
            &&& rep.total_ns == prefix_sum_ns(latencies@, rep.iterations as int)
            &&& rep.total_ns >= budget_ns
            &&& (budget_ns > 0 ==> rep.iterations >= 1)
        },
        r is None ==> total_ns_of(latencies@) < budget_ns,
{
    let mut runner = TimedRunner::new(budget_ns);
    let mut i: usize = 0;
    while runner.elapsed_ns < runner.budget_ns
        invariant
            runner.wf(),
            runner.budget_ns == budget_ns,
            i == runner.samples@.len(),
            i <= latencies@.len(),
            runner.elapsed_ns == prefix_sum_ns(latencies@, i as int),
            forall|m: int| 0 <= m < i ==> prefix_sum_ns(latencies@, m) < budget_ns,
            total_ns_of(latencies@) <= u64::MAX,
        decreases latencies@.len() - i,
    {
        if i == latencies.len() {
            return None;
        }
        let lat = latencies[i];
        proof {
            lemma_prefix_sum_mono(latencies@, i + 1, latencies@.len() as int);
            assert(prefix_sum_ns(latencies@, i + 1) == prefix_sum_ns(latencies@, i as int) + lat);
        }
        runner.record(lat);
        i = i + 1;
    }
    Some(runner.finish())
}

/// The iteration count of a timed run never decreases when the wall-clock
/// budget grows: under one latency sequence, a run with a larger budget stops
/// no earlier than a run with a smaller one.
pub proof fn lemma_count_monotonic_in_budget(s: Seq<u64>, b1: int, b2: int, n1: int, n2: int)
    requires
        b1 <= b2,
        stops_after(s, b1, n1),
        stops_after(s, b2, n2),
    ensures
        n1 <= n2,
{
    if n1 > n2 {
        assert(prefix_sum_ns(s, n2) < b1);
        assert(false);
    }
}

/// Under one latency sequence and one budget, the stopping point of a run is
/// unique: replaying the same run gives the same iteration count.
pub proof fn lemma_count_unique(s: Seq<u64>, b: int, n1: int, n2: int)
    requires
        stops_after(s, b, n1),
        stops_after(s, b, n2),
    ensures
        n1 == n2,
{
    lemma_count_monotonic_in_budget(s, b, b, n1, n2);
    lemma_count_monotonic_in_budget(s, b, b, n2, n1);
}

} // verus!
