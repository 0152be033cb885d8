use vstd::prelude::*;

verus! {

/// Seed of the noise generator of every sound effect.
pub const NOISE_SEED: u64 = 0xDEAD_BEEF_1234_5678;

/// Multiplier and increment of the linear congruential generator.
pub const LCG_MULTIPLIER: u64 = 6_364_136_223_846_793_005;

pub const LCG_INCREMENT: u64 = 1_442_695_040_888_963_407;

/// One step of the generator: `state * a + c` modulo 2^64.
pub open spec fn spec_lcg_step(state: u64) -> u64 {
    ((state as int * LCG_MULTIPLIER as int + LCG_INCREMENT as int) % 0x1_0000_0000_0000_0000int) as u64
}

/// The noise sample of a generator state: its upper 32 bits read as a
/// signed 32-bit integer.
pub open spec fn spec_noise_bits(state: u64) -> i32 {
    (state >> 32u64) as i32
}

/// Advances the generator state by one step.
pub fn lcg_step(state: u64) -> (next: u64)
    ensures
        next == spec_lcg_step(state),
{
    let product = state.wrapping_mul(LCG_MULTIPLIER);
    let next = product.wrapping_add(LCG_INCREMENT);
    proof {
        let r: int = 0x1_0000_0000_0000_0000int;
        let x: int = state as int * LCG_MULTIPLIER as int;
        assert(product as int == x % r);
        vstd::arithmetic::div_mod::lemma_add_mod_noop(x, LCG_INCREMENT as int, r);
        vstd::arithmetic::div_mod::lemma_small_mod(LCG_INCREMENT as nat, r as nat);
        if product as int + LCG_INCREMENT as int >= r {
            vstd::arithmetic::div_mod::lemma_fundamental_div_mod_converse(
                product as int + LCG_INCREMENT as int,
                r,
                1,
                product as int + LCG_INCREMENT as int - r,
            );
        } else {
            vstd::arithmetic::div_mod::lemma_small_mod(
                (product as int + LCG_INCREMENT as int) as nat,
                r as nat,
            );
        }
    }
    next
}

/// Cheap white noise for the sound effects: a linear congruential generator.
pub struct NoiseGenerator {
    pub state: u64,
}

impl NoiseGenerator {
    /// A generator at the fixed seed every sound effect starts from.
    pub fn new() -> (gen: NoiseGenerator)
        ensures
            gen.state == NOISE_SEED,
    {
        NoiseGenerator { state: NOISE_SEED }
    }

    /// Advances the generator and returns the next noise sample, as the
    /// raw signed integer that the caller scales to `-1.0..=1.0`.
    pub fn next_bits(&mut self) -> (bits: i32)
        ensures
            final(self).state == spec_lcg_step(old(self).state),
            bits == spec_noise_bits(final(self).state),
    {
        self.state = lcg_step(self.state);
        (self.state >> 32u64) as i32
    }
}

} // verus!
