//! The randomness source, behind a trusted boundary.

use vstd::prelude::*;
use rand::Rng;

verus! {

/// Relies on `rand::rng` and `rand::Rng::random_range`: the call returns a
/// value drawn from the given range, here the inclusive range `[0, max]`.
/// That range is never empty, so the call does not panic. Nothing more is
/// assumed of the value: every outcome below the bound is possible.
#[verifier::external_body]
pub(crate) fn random_u16_up_to(max: u16) -> (r: u16)
    ensures
        r <= max,
{
    rand::rng().random_range(0..=max)
}

} // verus!
