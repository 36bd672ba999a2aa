//! Blending, and the pseudo-random sequence that procedural behaviour draws on.

use vstd::prelude::*;
use crate::commands::Command;

verus! {

/// How a drawn color combines with the color already in the frame.
#[derive(Clone, Copy, Debug, PartialEq, Eq)]
pub enum BlendMode {
    Normal,
    Additive,
    Multiply,
}

/// Blend factor code: the source's alpha.
pub const SRC_ALPHA: u32 = 0x0302;

/// Blend factor code: one minus the source's alpha.
pub const ONE_MINUS_SRC_ALPHA: u32 = 0x0303;

/// Blend factor code: the destination's color.
pub const DST_COLOR: u32 = 0x0306;

/// Blend factor code: one.
pub const ONE: u32 = 1;

/// Blend factor code: zero.
pub const ZERO: u32 = 0;

/// The source and destination factors of a blend mode.
pub open spec fn blend_factors(mode: BlendMode) -> (u32, u32) {
    match mode {
        BlendMode::Normal => (SRC_ALPHA, ONE_MINUS_SRC_ALPHA),
        BlendMode::Additive => (SRC_ALPHA, ONE),
        BlendMode::Multiply => (DST_COLOR, ZERO),
    }
}

/// Asks for the blend function of `blend_mode`.
pub fn set_blend_mode(queue: &mut Vec<Command>, blend_mode: BlendMode)
    ensures
        final(queue)@ == old(queue)@.push(
            Command::BlendFunc {
                source: blend_factors(blend_mode).0,
                destination: blend_factors(blend_mode).1,
            },
        ),
{
    let (source, destination) = match blend_mode {
        BlendMode::Normal => (SRC_ALPHA, ONE_MINUS_SRC_ALPHA),
        BlendMode::Additive => (SRC_ALPHA, ONE),
        BlendMode::Multiply => (DST_COLOR, ZERO),
    };
    queue.push(Command::BlendFunc { source, destination });
}

/// The multiplier of the pseudo-random sequence.
pub const RANDOM_MULTIPLIER: i32 = 16807;

/// The product of `seed` and the multiplier, reduced to 32 bits in two's complement.
pub open spec fn next_seed(seed: i32) -> i32 {
    let low = (seed * RANDOM_MULTIPLIER) % 0x1_0000_0000;
    if low >= 0x8000_0000 {
        (low - 0x1_0000_0000) as i32
    } else {
        low as i32
    }
}

/// An explicitly owned, seedable source of pseudo-random numbers: each
/// draw multiplies the seed by a constant, wrapping around.
#[derive(Clone, Copy, Debug, PartialEq, Eq)]
pub struct Random {
    seed: i32,
}

impl Random {
    pub closed spec fn seed(&self) -> i32 {
        self.seed
    }

    pub fn new(seed: i32) -> (random: Random)
        ensures
            random.seed() == seed,
    {
        Random { seed }
    }

    /// Draws the next number of the sequence, which is also the new seed.
    pub fn next(&mut self) -> (drawn: i32)
        ensures
            drawn == next_seed(old(self).seed()),
            final(self).seed() == drawn,
    {
        self.seed = self.seed.wrapping_mul(RANDOM_MULTIPLIER);
        self.seed
    }
}

} // verus!
