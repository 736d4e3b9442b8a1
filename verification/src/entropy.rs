//! Chance: numbers from the thread's random generator.

use vstd::prelude::*;

verus! {

/// `rand::Rng::gen_range` on `rand::thread_rng()` with the range
/// `low..high`: some number of the range. rand panics on an empty range.
#[verifier::external_body]
pub(crate) fn random_in(low: u64, high: u64) -> (r: u64)
    requires
        low < high,
    ensures
        low <= r < high,
{
    rand::Rng::gen_range(&mut rand::thread_rng(), low..high)
}

/// `rand::Rng::gen_ratio` on `rand::thread_rng()`: true with the chance
/// `numerator` in `denominator`; always true where the two are equal, never
/// where the numerator is nothing. rand panics on a denominator of nothing
/// and on a numerator above the denominator.
#[verifier::external_body]
pub(crate) fn chance(numerator: u32, denominator: u32) -> (r: bool)
    requires
        0 < denominator,
        numerator <= denominator,
    ensures
        numerator == denominator ==> r,
        numerator == 0 ==> !r,
{
    rand::Rng::gen_ratio(&mut rand::thread_rng(), numerator, denominator)
}

/// An index into a list of `len` items, by chance.
pub fn random_index(len: usize) -> (r: usize)
    requires
        len > 0,
    ensures
        r < len,
{
    random_in(0, len as u64) as usize
}

} // verus!
