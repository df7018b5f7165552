use rand::Rng;
use vstd::prelude::*;

verus! {

/// Relies on `rand::Rng::gen_range` over `thread_rng()`: for an exclusive
/// range `lo..hi` it returns a value in `[lo, hi)` and panics only on an
/// empty range.
#[verifier::external_body]
pub(crate) fn draw_range(lo: i64, hi: i64) -> (r: i64)
    requires
        lo < hi,
    ensures
        lo <= r < hi,
{
    rand::thread_rng().gen_range(lo..hi)
}

/// Relies on `rand::Rng::gen_ratio` over `thread_rng()`: true with
/// probability `numerator / denominator`, never true for a zero numerator,
/// always true when the two are equal; it panics on a zero denominator or a
/// numerator above the denominator.
#[verifier::external_body]
pub(crate) fn draw_ratio(numerator: u32, denominator: u32) -> (r: bool)
    requires
        0 < denominator,
        numerator <= denominator,
    ensures
        numerator == 0 ==> !r,
        numerator == denominator ==> r,
{
    rand::thread_rng().gen_ratio(numerator, denominator)
}

} // verus!
