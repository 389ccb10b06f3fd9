//! Trusted boundary to the random number generator: the one source of
//! nondeterminism in the simulation, the gap placement of a spawned pipe.

use vstd::prelude::*;

use rand::Rng;

verus! {

#[verifier::external_type_specification]
#[verifier::external_body]
pub struct ExThreadRng(rand::rngs::ThreadRng);

/// Relies on `rand::thread_rng`: a handle to the lazily initialized
/// thread-local generator. Nothing is promised of it.
pub assume_specification[ rand::thread_rng ]() -> rand::rngs::ThreadRng;

/// Relies on `rand::Rng::gen_range` over a half-open `i64` range: the sample
/// is uniformly distributed in `[lo, hi)`, and the call panics only when the
/// range is empty, which the precondition rules out. Nothing is assumed
/// about which value in the range comes back.
#[verifier::external_body]
pub(crate) fn sample_in_range(rng: &mut rand::rngs::ThreadRng, lo: i64, hi: i64) -> (r: i64)
    requires
        lo < hi,
    ensures
        lo <= r < hi,
{
    rng.gen_range(lo..hi)
}

} // verus!
