//! The crate's single source of randomness: one trusted wrapper around the
//! `rand` crate. Spawn jitter, enemy selection rolls and spawn positions are
//! all drawn through it; everything done with a draw is verified for every
//! value the wrapper may return.

use vstd::prelude::*;

verus! {

/// Relies on `rand::Rng::gen_range` over the thread-local generator: a
/// uniform draw from the half-open range, which panics only on an empty
/// range. Nothing is assumed beyond the bounds; every caller is verified
/// for every value in them.
#[verifier::external_body]
pub fn random_in_range(lo: i64, hi: i64) -> (r: i64)
    requires
        lo < hi,
    ensures
        lo <= r < hi,
{
    rand::Rng::gen_range(&mut rand::thread_rng(), lo..hi)
}

} // verus!
