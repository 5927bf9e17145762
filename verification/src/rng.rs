//! The game's only source of randomness, behind a trusted boundary.

use vstd::prelude::*;

verus! {

/// Relies on `bracket_lib::prelude::RandomNumberGenerator`: `new`
/// seeds a fresh generator from entropy and `range(min, max)` is
/// documented to return a value inclusive of `min` and exclusive of
/// `max`, panicking only on an empty range.
#[verifier::external_body]
pub(crate) fn random_range(min: i32, max: i32) -> (r: i32)
    requires
        min < max,
    ensures
        min <= r < max,
{
    let mut rng = bracket_lib::prelude::RandomNumberGenerator::new();
    rng.range(min, max)
}

} // verus!
