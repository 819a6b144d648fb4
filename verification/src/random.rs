//! The source of randomness.
use vstd::prelude::*;
use rand::Rng;

verus! {

/// A number below `bound`, drawn by `rand::Rng::gen_range` from the thread's
/// generator `rand::thread_rng`. The generator returns a value of the
/// half-open range from zero to `bound`, and panics on an empty range, which
/// the precondition rules out. Nothing else is known of the draw.
#[verifier::external_body]
pub(crate) fn random_below(bound: u64) -> (r: u64)
    requires
        bound > 0,
    ensures
        r < bound,
{
    rand::thread_rng().gen_range(0, bound)
}

} // verus!
