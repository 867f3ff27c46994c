//! Random draws.

use vstd::prelude::*;

verus! {

/// `fastrand::Rng`, a random number generator. Nothing of its state is
/// visible here.
#[verifier::external_type_specification]
#[verifier::external_body]
pub struct ExRng(fastrand::Rng);

/// `fastrand::Rng::new`: a generator seeded from the thread's own. Nothing
/// is claimed of it.
#[verifier::external_body]
pub(crate) fn new_rng() -> (rng: fastrand::Rng) {
    fastrand::Rng::new()
}

/// `fastrand::Rng::usize` on the range `..bound`: some number below
/// `bound`. The call panics on an empty range, so `bound` must not be zero.
/// Which number comes is left open: two draws may differ.
#[verifier::external_body]
pub(crate) fn draw_below(rng: &fastrand::Rng, bound: usize) -> (drawn: usize)
    requires
        bound > 0,
    ensures
        drawn < bound,
{
    rng.usize(..bound)
}

} // verus!
