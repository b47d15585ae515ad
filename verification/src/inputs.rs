use vstd::prelude::*;
use rand::RngCore;
use crate::trim::ProvingKey;

verus! {

/// One per-iteration puzzle instance: a random epoch number, the default
/// proof target, and the degree of the key it will be proved against.
#[derive(Clone, Copy, PartialEq, Eq, Structural, Debug)]
pub struct EpochChallenge {
    pub epoch_number: u32,
    pub target: u64,
    pub degree: u32,
}

/// The fresh inputs one timed proof iteration consumes: a challenge and a
/// miner nonce, drawn anew for every iteration and never reused.
#[derive(Clone, Copy, PartialEq, Eq, Structural, Debug)]
pub struct IterationInputs {
    pub challenge: EpochChallenge,
    pub nonce: u64,
}

/// Relies on rand::thread_rng and rand::RngCore::next_u32 for a fresh random
/// 32-bit epoch number; nothing is promised of its value.
#[verifier::external_body]
fn draw_epoch_number() -> u32 {
    rand::thread_rng().next_u32()
}

/// Relies on rand::thread_rng and rand::RngCore::next_u64 for a fresh random
/// 64-bit miner nonce; nothing is promised of its value.
#[verifier::external_body]
fn draw_nonce() -> u64 {
    rand::thread_rng().next_u64()
}

/// Builds a fresh challenge for a proving key. Whatever epoch number the
/// random source hands back, the challenge carries the key's own degree and
/// the default target: a key and the challenges built for it can never
/// disagree on the degree.
pub fn fresh_challenge(key: &ProvingKey) -> (r: EpochChallenge)
    ensures
        r.degree == key.degree,
        r.target == 0,
{
    EpochChallenge { epoch_number: draw_epoch_number(), target: 0, degree: key.degree }
}

/// Draws the whole input set of one timed iteration.
pub fn fresh_inputs(key: &ProvingKey) -> (r: IterationInputs)
    ensures
        r.challenge.degree == key.degree,
        r.challenge.target == 0,
{
    IterationInputs { challenge: fresh_challenge(key), nonce: draw_nonce() }
}

/// Whether a challenge may be proved against a key: their degrees agree.
pub fn degree_matches(key: &ProvingKey, challenge: &EpochChallenge) -> (r: bool)
    ensures
        r <==> challenge.degree == key.degree,
{
    challenge.degree == key.degree
}

} // verus!
