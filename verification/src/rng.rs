//! The random draws the games make, taken from `rand`'s small generator.

use rand::rngs::SmallRng;
use rand::Rng;
use vstd::prelude::*;

verus! {

/// `rand::rngs::SmallRng`, carried through the games as an opaque generator.
#[verifier::external_type_specification]
#[verifier::external_body]
pub struct ExSmallRng(SmallRng);

/// Calls `Rng::gen_range` with the inclusive range `lo..=hi` on `u8`.
/// rand documents that the result lies in the range and that an empty range
/// panics; which value comes out depends on the generator's state and is left open.
#[verifier::external_body]
pub(crate) fn draw_u8(rng: &mut SmallRng, lo: u8, hi: u8) -> (r: u8)
    requires
        lo <= hi,
    ensures
        lo <= r <= hi,
{
    rng.gen_range(lo..=hi)
}

/// Calls `Rng::gen_range` with the inclusive range `lo..=hi` on `u32`.
/// rand documents that the result lies in the range and that an empty range
/// panics; which value comes out depends on the generator's state and is left open.
#[verifier::external_body]
pub(crate) fn draw_u32(rng: &mut SmallRng, lo: u32, hi: u32) -> (r: u32)
    requires
        lo <= hi,
    ensures
        lo <= r <= hi,
{
    rng.gen_range(lo..=hi)
}

/// Calls `Rng::gen::<bool>`, a fair coin. Nothing is claimed of the outcome.
#[verifier::external_body]
pub(crate) fn draw_bool(rng: &mut SmallRng) -> (r: bool) {
    rng.gen::<bool>()
}

/// Calls `Rng::gen_ratio(numerator, denominator)`: true with probability
/// `numerator / denominator`. rand documents that a zero numerator always gives
/// false, a numerator equal to the denominator always gives true, and that a
/// zero denominator or a numerator above it panics. Other outcomes are left open.
#[verifier::external_body]
pub(crate) fn draw_ratio(rng: &mut SmallRng, numerator: u32, denominator: u32) -> (r: bool)
    requires
        0 < denominator,
        numerator <= denominator,
    ensures
        numerator == 0 ==> !r,
        numerator == denominator ==> r,
{
    rng.gen_ratio(numerator, denominator)
}

} // verus!
