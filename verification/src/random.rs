//! The source of chance for food placement.

use rand::Rng;
use vstd::prelude::*;

verus! {

/// Draws an integer from `low..high` with `rand::thread_rng().gen_range`.
///
/// Trusted, not proved: the drawn value lies in the half-open range. Which
/// value comes is left open. `gen_range` panics on an empty range, which the
/// precondition rules out.
#[verifier::external_body]
pub(crate) fn random_in_range(low: i32, high: i32) -> (drawn: i32)
    requires
        low < high,
    ensures
        low <= drawn < high,
{
    rand::thread_rng().gen_range(low..high)
}

} // verus!
