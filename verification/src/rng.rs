//! The value-generation function: a linear-congruential step with fixed
//! constants, reduced into a closed range. A session's random value is
//! this function of the acquisition seed, so for a fixed seed the value
//! is reproducible.

use vstd::prelude::*;

verus! {

/// Multiplier of the linear-congruential step.
pub const LCG_A: u128 = 1664525;

/// Increment of the linear-congruential step.
pub const LCG_C: u128 = 1013904223;

/// Modulus of the linear-congruential step: 2^32.
pub const LCG_M: u128 = 0x1_0000_0000;

/// One linear-congruential step: `(a * x + c) mod 2^32`.
pub open spec fn lcg_step(seed: int) -> int {
    (1664525 * seed + 1013904223) % 0x1_0000_0000
}

/// The step's output mapped into `[min, max]` by `mod (max - min + 1) + min`.
pub open spec fn lcg_in_range(seed: int, min: int, max: int) -> int {
    lcg_step(seed) % (max - min + 1) + min
}

/// Generates the pseudo-random number for `seed` in `[min, max]`, by one
/// linear-congruential step followed by reduction into the range.
pub fn generate_random_number(seed: u128, min: u32, max: u32) -> (r: u32)
    requires
        min <= max,
        LCG_A * seed + LCG_C <= u128::MAX,
    ensures
        r == lcg_in_range(seed as int, min as int, max as int),
        min <= r <= max,
{
    let x: u128 = (LCG_A * seed + LCG_C) % LCG_M;
    let range: u128 = (max - min) as u128 + 1;
    let reduced: u128 = x % range + min as u128;
    proof {
        assert(0 <= x < 0x1_0000_0000) by {
            vstd::arithmetic::div_mod::lemma_mod_bound(
                (LCG_A * seed + LCG_C) as int,
                0x1_0000_0000,
            );
        }
        assert(0 <= x % range < range) by {
            vstd::arithmetic::div_mod::lemma_mod_bound(x as int, range as int);
        }
    }
    reduced as u32
}

/// The random value of a session acquired in local mode from `seed`:
/// the linear-congruential output reduced into `[1, 100]`.
pub open spec fn local_value_of(seed: int) -> int {
    lcg_in_range(seed, 1, 100)
}

/// Produces the local-mode random value for a seed, in `[1, 100]`.
pub fn local_random_value(seed: u64) -> (r: u32)
    ensures
        r == local_value_of(seed as int),
        1 <= r <= 100,
{
    generate_random_number(seed as u128, 1, 100)
}

/// Local-mode acquisition is deterministic: any two values produced from
/// the same seed, range and step agree, whatever the order of the calls.
pub proof fn lemma_local_acquisition_deterministic(seed: int, min: int, max: int, r1: int, r2: int)
    requires
        r1 == lcg_in_range(seed, min, max),
        r2 == lcg_in_range(seed, min, max),
    ensures
        r1 == r2,
{
}

} // verus!
