use vstd::prelude::*;
use vstd::arithmetic::power::pow;
use vstd::arithmetic::power2::{
    pow2, is_pow2, is_pow2_exists, is_pow2_equiv, lemma_pow2, lemma_pow2_unfold,
    lemma_pow2_strictly_increases, lemma2_to64,
};

verus! {

/// The capacity of a loaded structured reference string: the largest
/// polynomial degree its parameters support. What the trimming logic reads of
/// the SRS is exactly this bound; the parameters themselves stay opaque.
pub struct SrsCapacity {
    pub max_degree: u32,
}

/// The degree a proving key is requested for.
#[derive(Clone, Copy, PartialEq, Eq, Structural, Debug)]
pub struct PuzzleConfig {
    pub degree: u32,
}

/// A proving key derived from the SRS, valid for polynomials up to its
/// advertised degree.
#[derive(Clone, Copy, PartialEq, Eq, Structural, Debug)]
pub struct ProvingKey {
    pub degree: u32,
}

impl ProvingKey {
    /// A trimmed key always advertises a power-of-two degree.
    pub open spec fn wf(self) -> bool {
        is_pow2(self.degree as int)
    }
}

/// Why a trim request was rejected.
#[derive(Clone, Copy, PartialEq, Eq, Structural, Debug)]
pub enum TrimError {
    NotPowerOfTwo,
    ExceedsCapacity,
}

/// Decides whether `d` is a power of two, by halving until the factor two is
/// exhausted.
pub fn pow2_check(d: u32) -> (r: bool)
    ensures
        r <==> is_pow2(d as int),
{
    let mut x: u32 = d;
    if x == 0 {
        proof {
            reveal(is_pow2);
        }
        return false;
    }
    while x % 2 == 0
        invariant
            x >= 1,
            is_pow2(x as int) <==> is_pow2(d as int),
        decreases x,
    {
        proof {
            reveal(is_pow2);
        }
        x = x / 2;
    }
    proof {
        reveal(is_pow2);
    }
    x == 1
}

/// Derives a proving key of the requested degree from the SRS. The request
/// succeeds exactly when the degree is a power of two no larger than the
/// SRS's capacity; each rejection names its reason, deterministically.
pub fn trim(srs: &SrsCapacity, config: PuzzleConfig) -> (r: Result<ProvingKey, TrimError>)
    ensures
        !is_pow2(config.degree as int) ==> r == Err::<ProvingKey, TrimError>(
            TrimError::NotPowerOfTwo,
        ),
        is_pow2(config.degree as int) && config.degree > srs.max_degree ==> r == Err::<
            ProvingKey,
            TrimError,
        >(TrimError::ExceedsCapacity),
        is_pow2(config.degree as int) && config.degree <= srs.max_degree ==> r == Ok::<
            ProvingKey,
            TrimError,
        >((ProvingKey { degree: config.degree })),
        r matches Ok(key) ==> key.wf() && key.degree == config.degree,
{
    if !pow2_check(config.degree) {
        Err(TrimError::NotPowerOfTwo)
    } else if config.degree > srs.max_degree {
        Err(TrimError::ExceedsCapacity)
    } else {
        Ok(ProvingKey { degree: config.degree })
    }
}

/// Computes two to the power `e` for exponents that fit a `u32`.
pub fn pow2_u32(e: u32) -> (r: u32)
    requires
        e <= 31,
    ensures
        r as nat == pow2(e as nat),
{
    proof {
        lemma2_to64();
    }
    let mut r: u32 = 1;
    let mut i: u32 = 0;
    while i < e
        invariant
            i <= e <= 31,
            r as nat == pow2(i as nat),
        decreases e - i,
    {
        proof {
            lemma_pow2_unfold((i + 1) as nat);
            if i + 1 < 31 {
                lemma_pow2_strictly_increases((i + 1) as nat, 31);
            }
            lemma2_to64();
        }
        r = r * 2;
        i = i + 1;
    }
    r
}

/// Builds the prover for an exponent: trims the SRS to degree two to the
/// `exponent`. An exponent whose power of two cannot be represented, or
/// overshoots the SRS, is rejected as exceeding capacity.
pub fn setup_prover(srs: &SrsCapacity, exponent: u32) -> (r: Result<(ProvingKey, u32), TrimError>)
    ensures
        pow2(exponent as nat) <= srs.max_degree as nat ==> (r matches Ok(pair) && (
        pair.0.degree as nat) == pow2(exponent as nat) && pair.1 == pair.0.degree && pair.0.wf()),
        pow2(exponent as nat) > srs.max_degree as nat ==> r == Err::<(ProvingKey, u32), TrimError>(
            TrimError::ExceedsCapacity,
        ),
{
    if exponent > 31 {
        proof {
            lemma2_to64();
            if exponent > 32 {
                lemma_pow2_strictly_increases(32, exponent as nat);
            }
        }
        return Err(TrimError::ExceedsCapacity);
    }
    let degree = pow2_u32(exponent);
    proof {
        lemma_pow2(exponent as nat);
        assert(pow(2, exponent as nat) == degree as int);
        assert(is_pow2_exists(degree as int));
        is_pow2_equiv(degree as int);
    }
    let config = PuzzleConfig { degree };
    match trim(srs, config) {
        Ok(key) => Ok((key, degree)),
        Err(e) => Err(e),
    }
}

} // verus!
