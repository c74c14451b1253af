use vstd::prelude::*;
use rand::Rng;

verus! {

/// Relies on rand::random::<bool>, drawing from the thread-local generator;
/// nothing is promised of the value.
#[verifier::external_body]
pub(crate) fn random_bool() -> (r: bool) {
    rand::random::<bool>()
}

/// Relies on rand::Rng::gen_range over the thread-local generator: a value in
/// `0..bound`; the call panics on an empty range, which `requires` excludes.
#[verifier::external_body]
pub(crate) fn random_below(bound: u64) -> (r: u64)
    requires
        bound > 0,
    ensures
        r < bound,
{
    rand::thread_rng().gen_range(0..bound)
}

} // verus!
