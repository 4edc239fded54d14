//! What this crate believes without proof: the contracts of the functions it
//! calls in `rand`, `rand_core` and `std` that Verus has no specification for.

use vstd::prelude::*;

verus! {

/// `String::push` puts one character at the end of the string and leaves the
/// rest as it was.
pub assume_specification[ String::push ](s: &mut String, c: char)
    ensures
        final(s)@ == old(s)@.push(c),
;

/// Calls `rand::Rng::random_range` on the range `0..n`. That function panics
/// on an empty range, which `requires` leaves out; for any other range it
/// returns a number of the range, whatever the generator hands it. Which
/// number is up to the generator, so nothing more is claimed. If the generator
/// itself panics, as the one of [`os_rng`] does when the operating system has
/// no random data to give, so does this call.
#[verifier::external_body]
pub(crate) fn draw_below<R: rand::Rng>(rng: &mut R, n: usize) -> (r: usize)
    requires
        n > 0,
    ensures
        r < n,
{
    rng.random_range(0..n)
}

/// Calls `rand_core::TryRngCore::unwrap_err` on `rand_core::OsRng`: the
/// generator of the operating system, in the form that panics where the
/// system fails to deliver. Nothing is claimed of the result.
#[verifier::external_body]
pub(crate) fn os_rng() -> impl rand::Rng + rand::CryptoRng {
    rand_core::TryRngCore::unwrap_err(rand_core::OsRng)
}

} // verus!
