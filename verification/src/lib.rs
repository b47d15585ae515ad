//! A micro-benchmark harness around an external proving library: trimming a
//! structured reference string into a proving key, timing repeated proof and
//! multi-scalar-multiplication calls over a wall-clock budget, sampling
//! background resource metrics, and summarizing the collected latencies.

pub mod coinbase;
pub mod inputs;
pub mod msm;
pub mod runner;
pub mod sampler;
pub mod stats;
pub mod trim;
