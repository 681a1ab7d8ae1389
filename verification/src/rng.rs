//! Deterministic pseudo-random source for sensor noise and kicker jitter.
//!
//! A 32-bit linear congruential generator: the caller seeds it once, and every
//! draw is pinned to an exact arithmetic model, so a run with a given seed is
//! reproducible bit for bit.

use vstd::prelude::*;

verus! {

/// State of the seeded generator; always below 2^32.
#[derive(Clone, Copy, Debug, PartialEq, Eq, Structural)]
pub struct RngState {
    pub s: u64,
}

impl RngState {
    pub open spec fn wf(self) -> bool {
        self.s < 0x1_0000_0000
    }

    /// Seeds the generator; only the low 32 bits of the seed matter.
    pub fn seed(seed: u64) -> (r: RngState)
        ensures
            r.s == seed % 0x1_0000_0000,
            r.wf(),
    {
        RngState { s: seed % 0x1_0000_0000 }
    }
}

/// The successor state of the generator.
#[verifier::opaque]
pub open spec fn spec_rng_next(s: int) -> int {
    (1_664_525 * s + 1_013_904_223) % 0x1_0000_0000
}

/// Advances the generator and returns its new 32-bit state.
pub fn rng_next(st: &mut RngState) -> (r: u64)
    requires
        old(st).wf(),
    ensures
        final(st).s == spec_rng_next(old(st).s as int),
        r == final(st).s,
        final(st).wf(),
{
    proof {
        reveal(spec_rng_next);
    }
    let n: u64 = (1_664_525u64 * st.s + 1_013_904_223u64) % 0x1_0000_0000;
    st.s = n;
    n
}

/// The generator state after `n` draws.
pub open spec fn spec_rng_n(s: int, n: nat) -> int
    decreases n,
{
    if n == 0 {
        s
    } else {
        spec_rng_next(spec_rng_n(s, (n - 1) as nat))
    }
}

/// A jitter draw: uniform over `[-mag, mag]`, as a function of the generator
/// state alone.
pub open spec fn spec_jitter(s: int, mag: int) -> int {
    spec_rng_next(s) % (2 * mag + 1) - mag
}

/// Draws a value in `[-mag, mag]` and advances the generator.
pub fn jitter(st: &mut RngState, mag: i64) -> (r: i64)
    requires
        old(st).wf(),
        0 <= mag <= 1_000_000_000,
    ensures
        r == spec_jitter(old(st).s as int, mag as int),
        -mag <= r <= mag,
        final(st).s == spec_rng_next(old(st).s as int),
        final(st).wf(),
{
    proof {
        reveal(spec_rng_next);
    }
    let n: u64 = rng_next(st);
    let span: u64 = 2 * (mag as u64) + 1;
    let m: u64 = n % span;
    (m as i64) - mag
}

} // verus!
