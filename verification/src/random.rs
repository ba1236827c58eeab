//! The one source of chance that this crate draws on.

use rand::Rng;
use vstd::prelude::*;

verus! {

/// A whole number drawn from `0..high` by the calling thread's generator.
///
/// Calls `rand::thread_rng` and `rand::Rng::gen_range` with the bounds
/// `0` and `high`. `gen_range` documents that the value lies in the
/// half-open range and that it panics where the range is empty, which
/// `requires` rules out. Nothing is claimed of which value comes out, nor
/// that two calls give the same. The generator is seeded by the system
/// when a thread first asks for it, and gives up where the system has no
/// seed to give; no argument can bring that about or prevent it.
#[verifier::external_body]
pub(crate) fn below(high: usize) -> (r: usize)
    requires
        high > 0,
    ensures
        r < high,
{
    rand::thread_rng().gen_range(0, high)
}

} // verus!
