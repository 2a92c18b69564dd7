//! The random choices of the simulation, drawn from the generator that the
//! `rand` crate keeps for each thread and seeds from the system.
//!
//! Nothing in this module is proved: each function hands a request on to
//! `rand` and states what that crate documents of the answer.

use vstd::prelude::*;
use rand::Rng;

verus! {

/// A whole number drawn evenly from `low..high`.
///
/// Calls `Rng::gen_range` on `rand::thread_rng()` with the half-open range
/// `low..high`. That function refuses an empty range, which the
/// precondition rules out, and returns a member of the range it was given.
#[verifier::external_body]
pub(crate) fn uniform(low: i64, high: i64) -> (r: i64)
    requires
        low < high,
    ensures
        low <= r < high,
{
    rand::thread_rng().gen_range(low..high)
}

/// A fair coin.
///
/// Calls `Rng::gen` on `rand::thread_rng()` for a `bool`. Either value may
/// come back.
#[verifier::external_body]
pub(crate) fn coin() -> (r: bool) {
    rand::thread_rng().gen()
}

/// A coin that shows `true` with a chance of `numerator` in `denominator`.
///
/// Calls `Rng::gen_ratio` on `rand::thread_rng()`. That function refuses a
/// zero denominator and a numerator above the denominator, which the
/// precondition rules out. It documents that the answer is always `true`
/// where the two are equal and always `false` where the numerator is zero.
#[verifier::external_body]
pub(crate) fn chance(numerator: u32, denominator: u32) -> (r: bool)
    requires
        denominator > 0,
        numerator <= denominator,
    ensures
        numerator == denominator ==> r,
        numerator == 0 ==> !r,
{
    rand::thread_rng().gen_ratio(numerator, denominator)
}

} // verus!
