//! Random draws for the effects, from rand's small fast generator.
use vstd::prelude::*;

use rand::rngs::SmallRng;
use rand::{Rng, SeedableRng};

verus! {

/// rand's small, fast, seedable generator, carried through the effects as an opaque value.
#[verifier::external_type_specification]
#[verifier::external_body]
pub struct ExSmallRng(SmallRng);

/// Relies on rand's `SeedableRng::seed_from_u64` for `SmallRng`: a generator
/// whose sequence is fixed by the seed.
#[verifier::external_body]
pub(crate) fn seeded(seed: u64) -> SmallRng {
    SmallRng::seed_from_u64(seed)
}

/// Relies on rand's `Rng::gen_range` on `i32`: a value in `[lo, hi)`; it
/// panics when `lo >= hi`, which `requires` leaves out.
#[verifier::external_body]
pub(crate) fn gen_range_i32(rng: &mut SmallRng, lo: i32, hi: i32) -> (r: i32)
    requires
        lo < hi,
    ensures
        lo <= r < hi,
{
    rng.gen_range(lo, hi)
}

/// Relies on rand's `Rng::gen_ratio`: `true` with chance `num / den`, always
/// `true` when `num == den` and always `false` when `num == 0`; it panics when
/// `den == 0` or `num > den`, which `requires` leaves out.
#[verifier::external_body]
pub(crate) fn gen_ratio(rng: &mut SmallRng, num: u32, den: u32) -> (r: bool)
    requires
        0 < den,
        num <= den,
    ensures
        num == den ==> r,
        num == 0 ==> !r,
{
    rng.gen_ratio(num, den)
}

} // verus!
