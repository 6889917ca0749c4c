//! The generator, and the draws that the simulation makes from it.

use vstd::prelude::*;
use rand::rngs::StdRng;
use rand::{Rng, SeedableRng};

verus! {

#[verifier::external_type_specification]
#[verifier::external_body]
pub struct ExStdRng(rand::rngs::StdRng);

/// The one generator that every random choice of the world draws from.
pub struct RngResource {
    pub generator: StdRng,
}

/// Calls `rand::SeedableRng::seed_from_u64` for `StdRng`. Nothing is
/// claimed about the generator that comes back.
#[verifier::external_body]
fn generator_from_seed(seed: u64) -> StdRng {
    StdRng::seed_from_u64(seed)
}

/// Calls `rand::Rng::gen` for a `u32`. Nothing is claimed about the number
/// drawn.
#[verifier::external_body]
fn draw_u32(generator: &mut StdRng) -> u32 {
    generator.gen::<u32>()
}

/// Calls `rand::Rng::gen_range` on the half-open range from `low` to
/// `high`. The number drawn lies in the range. An empty range makes the
/// generator panic, so it is ruled out.
#[verifier::external_body]
fn draw_in_range(generator: &mut StdRng, low: i64, high: i64) -> (r: i64)
    requires
        low < high,
    ensures
        low <= r < high,
{
    generator.gen_range(low..high)
}

impl RngResource {
    /// A generator that starts from the given seed.
    pub fn from_seed(seed: u64) -> RngResource {
        RngResource { generator: generator_from_seed(seed) }
    }

    /// Draws any 32-bit number.
    pub fn next_u32(&mut self) -> u32 {
        draw_u32(&mut self.generator)
    }

    /// Draws a number that is at least `low` and less than `high`. There
    /// must be such a number.
    pub fn next_in_range(&mut self, low: i64, high: i64) -> (r: i64)
        requires
            low < high,
        ensures
            low <= r < high,
    {
        draw_in_range(&mut self.generator, low, high)
    }
}

} // verus!
