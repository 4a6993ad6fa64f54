//! Draws from the process random number generator, behind trusted
//! wrappers that promise only the range of the result.

use vstd::prelude::*;

verus! {

/// Relies on rand::Rng::gen_range over rand::thread_rng: a draw in
/// `[0, 1000)`.  Nothing is promised about which value comes back.
#[verifier::external_body]
pub(crate) fn roll_permille() -> (r: u32)
    ensures
        r < 1000,
{
    rand::Rng::gen_range(&mut rand::thread_rng(), 0..1000u32)
}

/// Relies on rand::Rng::gen_range over rand::thread_rng: a draw in
/// `[min, max]`.  Nothing is promised about which value comes back.
#[verifier::external_body]
pub(crate) fn roll_inclusive(min: u32, max: u32) -> (r: u32)
    requires
        min <= max,
    ensures
        min <= r <= max,
{
    rand::Rng::gen_range(&mut rand::thread_rng(), min..=max)
}

} // verus!
