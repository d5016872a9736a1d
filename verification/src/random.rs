//! Random numbers for the placement of food.

use vstd::prelude::*;

verus! {

/// `rand::random_range` on the half-open range `low..high`, drawn from the
/// generator of the calling thread. The call panics on an empty range, which
/// `requires` leaves out; the contract claims that the number drawn lies in
/// the range and nothing of which number it is.
#[verifier::external_body]
pub(crate) fn random_range(low: u16, high: u16) -> (drawn: u16)
    requires
        low < high,
    ensures
        low <= drawn < high,
{
    rand::random_range(low..high)
}

} // verus!
