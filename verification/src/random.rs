//! Random draws, taken from the `rand` crate.
//!
//! Nothing in this file is proved: each function states what the
//! documentation of `rand` promises of the call in its body.

use vstd::prelude::*;
use rand::Rng;

verus! {

/// The handle of `rand` to the random number generator of the thread.
#[verifier::external_type_specification]
#[verifier::external_body]
pub struct ExThreadRng(rand::rngs::ThreadRng);

/// `rand::thread_rng`: the handle to the generator of the current thread.
/// Nothing is claimed of it.
#[verifier::external_body]
pub(crate) fn thread_rng() -> (rng: rand::rngs::ThreadRng) {
    rand::thread_rng()
}

/// `Rng::gen_range` on a half-open range of integers. The call panics on an
/// empty range, which the `requires` leaves out; the number it returns lies
/// in the range.
#[verifier::external_body]
pub(crate) fn gen_range(rng: &mut rand::rngs::ThreadRng, low: i64, high: i64) -> (value: i64)
    requires
        low < high,
    ensures
        low <= value < high,
{
    rng.gen_range(low..high)
}

/// `Rng::gen_ratio`: true with a chance of `numerator` in `denominator`.
/// The call panics on a zero denominator and on a ratio above one, which the
/// `requires` leaves out. A ratio of one always gives true and a ratio of
/// zero always gives false.
#[verifier::external_body]
pub(crate) fn gen_ratio(
    rng: &mut rand::rngs::ThreadRng,
    numerator: u32,
    denominator: u32,
) -> (hit: bool)
    requires
        0 < denominator,
        numerator <= denominator,
    ensures
        numerator == denominator ==> hit,
        numerator == 0 ==> !hit,
{
    rng.gen_ratio(numerator, denominator)
}

} // verus!
