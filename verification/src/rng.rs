//! The simulation's single source of randomness, taken from the `rand` crate.

use vstd::prelude::*;

verus! {

/// Relies on rand's `Rng::gen_range` on a thread-local generator: the result
/// of sampling `0..n` lies in that half-open range, for any non-empty range.
/// Nothing is assumed about which value comes back.
#[verifier::external_body]
pub(crate) fn rand_below(n: u32) -> (r: u32)
    requires
        1 <= n,
    ensures
        r < n,
{
    rand::Rng::gen_range(&mut rand::thread_rng(), 0..n)
}

} // verus!
