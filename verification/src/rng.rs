//! The process-wide source of randomness, owned as explicit state and
//! passed into whatever draws from it. The generator itself belongs to
//! the rand crate; nothing is assumed of its stream beyond the range of
//! each sample.

use vstd::prelude::*;

verus! {

#[verifier::external_type_specification]
#[verifier::external_body]
pub struct ExStdRng(rand::rngs::StdRng);

/// A seeded pseudo-random generator.
#[derive(Debug)]
pub struct RandomSource {
    rng: rand::rngs::StdRng,
}

impl RandomSource {
    /// Relies on rand's SeedableRng::seed_from_u64 to build the
    /// generator; nothing is assumed of the stream it will produce.
    #[verifier::external_body]
    pub fn from_seed(seed: u64) -> (r: RandomSource) {
        RandomSource { rng: <rand::rngs::StdRng as rand::SeedableRng>::seed_from_u64(seed) }
    }

    /// Relies on rand's RngExt::random_range over the half-open range
    /// below `n`: the sample always lies in the range, which must not be
    /// empty. Which value comes back is unspecified.
    #[verifier::external_body]
    pub fn draw_below(&mut self, n: usize) -> (r: usize)
        requires
            n >= 1,
        ensures
            r < n,
    {
        rand::RngExt::random_range(&mut self.rng, 0..n)
    }
}

} // verus!
