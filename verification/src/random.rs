use rand::Rng;
use vstd::prelude::*;

verus! {

/// Draws from the thread-local generator of `rand` (0.8): calls
/// `rand::Rng::gen_range(0..bound)` on `rand::thread_rng()`. The crate
/// panics on an empty range, hence `bound > 0`; every value it returns lies
/// in the range. Which value comes out is left open: it rests on chance.
#[verifier::external_body]
pub(crate) fn random_below(bound: usize) -> (r: usize)
    requires
        bound > 0,
    ensures
        r < bound,
{
    rand::thread_rng().gen_range(0..bound)
}

/// Calls `rand::Rng::gen_ratio(numerator, denominator)` on
/// `rand::thread_rng()`: `true` with probability `numerator / denominator`.
/// The crate panics when `denominator` is 0 or `numerator` exceeds it; for
/// a ratio of 0 its Bernoulli sampler always answers `false`, for a ratio
/// of 1 always `true`. Any other answer rests on chance.
#[verifier::external_body]
pub(crate) fn random_ratio(numerator: u32, denominator: u32) -> (r: bool)
    requires
        0 < denominator,
        numerator <= denominator,
    ensures
        numerator == 0 ==> !r,
        numerator == denominator ==> r,
{
    rand::thread_rng().gen_ratio(numerator, denominator)
}

} // verus!
