use vstd::prelude::*;
use crate::runner::{prefix_sum_ns, total_ns_of, lemma_prefix_sum_mono, lemma_prefix_sum_nonneg};

verus! {

/// The smallest of the first `n` samples, for `n >= 1`.
pub open spec fn min_first(s: Seq<u64>, n: int) -> u64
    decreases n,
{
    if n <= 1 {
        s[0]
    } else {
        let m = min_first(s, n - 1);
        if s[n - 1] < m {
            s[n - 1]
        } else {
            m
        }
    }
}

/// The largest of the first `n` samples, for `n >= 1`.
pub open spec fn max_first(s: Seq<u64>, n: int) -> u64
    decreases n,
{
    if n <= 1 {
        s[0]
    } else {
        let m = max_first(s, n - 1);
        if s[n - 1] > m {
            s[n - 1]
        } else {
            m
        }
    }
}

/// The latency statistics reported for one benchmark run.
#[derive(Clone, Copy, PartialEq, Eq, Structural, Debug)]
pub struct StatsSummary {
    pub count: usize,
    pub total_ns: u64,
    pub min_ns: u64,
    pub max_ns: u64,
    pub mean_ns: u64,
}

/// Summarizes a run's latency samples: their count, sum, extremes, and the
/// mean rounded down. An empty run has no summary.
pub fn summarize(samples: &Vec<u64>) -> (r: Option<StatsSummary>)
    requires
        total_ns_of(samples@) <= u64::MAX,
    ensures
        r is None <==> samples@.len() == 0,
        r matches Some(st) ==> {
            &&& st.count == samples@.len()
            &&& st.total_ns == total_ns_of(samples@)
            &&& st.min_ns == min_first(samples@, samples@.len() as int)
            &&& st.max_ns == max_first(samples@, samples@.len() as int)
            &&& st.mean_ns == total_ns_of(samples@) / samples@.len() as int
        },
{
    if samples.len() == 0 {
        return None;
    }
    let first = samples[0];
    let mut total: u64 = first;
    let mut mn: u64 = first;
    let mut mx: u64 = first;
    let mut i: usize = 1;
    proof {
        lemma_prefix_sum_nonneg(samples@, 0);
    }
    while i < samples.len()
        invariant
            1 <= i <= samples@.len(),
            total == prefix_sum_ns(samples@, i as int),
            mn == min_first(samples@, i as int),
            mx == max_first(samples@, i as int),
            total_ns_of(samples@) <= u64::MAX,
        decreases samples@.len() - i,
    {
        let lat = samples[i];
        proof {
            lemma_prefix_sum_mono(samples@, i as int + 1, samples@.len() as int);
            lemma_prefix_sum_nonneg(samples@, i as int);
        }
        total = total + lat;
        if lat < mn {
            mn = lat;
        }
        if lat > mx {
            mx = lat;
        }
        i = i + 1;
    }
    let count = samples.len();
    let mean = total / (count as u64);
    Some(StatsSummary { count, total_ns: total, min_ns: mn, max_ns: mx, mean_ns: mean })
}

/// Completed iterations per second, rounded down, over a run's total time.
pub fn throughput_per_sec(iterations: u64, total_ns: u64) -> (r: u64)
    requires
        total_ns > 0,
        iterations <= 0xFFFF_FFFF,
    ensures
        r == (iterations * 1_000_000_000) as int / total_ns as int,
{
    (iterations * 1_000_000_000) / total_ns
}

} // verus!
