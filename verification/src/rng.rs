//! The linear congruential generator that drives texture noise, analogue
//! drift and the corrosion modulation.

use vstd::prelude::*;

verus! {

/// Multiplier of the generator (Numerical Recipes constants).
pub const LCG_MULTIPLIER: u32 = 1664525;

/// Increment of the generator.
pub const LCG_INCREMENT: u32 = 1013904223;

/// One step of the generator, over the integers modulo 2^32.
pub open spec fn spec_lcg_next(state: u32) -> u32 {
    ((state as int * 1664525 + 1013904223) % 0x1_0000_0000) as u32
}

/// Advances a generator state by one step, wrapping on overflow.
pub fn lcg_next(state: u32) -> (next: u32)
    ensures
        next == spec_lcg_next(state),
{
    let m = state.wrapping_mul(LCG_MULTIPLIER);
    m.wrapping_add(LCG_INCREMENT)
}

} // verus!
