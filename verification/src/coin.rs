//! The randomness source for the coin flip.

use vstd::prelude::*;

verus! {

/// Relies on `rand::random::<bool>` for one pseudo-random draw. The source
/// is an explicit placeholder, not fit for value-bearing decisions, and
/// nothing is promised about which bit comes back: the resolution is
/// verified for either value of it.
#[verifier::external_body]
pub(crate) fn flip_coin() -> bool {
    rand::random::<bool>()
}

} // verus!
