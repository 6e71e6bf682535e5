//! Numbers drawn at random.

use rand::Rng;
use vstd::prelude::*;

verus! {

/// A number between `low` and `high`, both included, drawn with
/// `rand::Rng::gen_range` from the generator that `rand::thread_rng` keeps
/// for the running thread.
///
/// This function is not verified: its contract is taken from `rand`. Which
/// number comes is left open, and two calls may differ; all that is claimed
/// is that the number lies in the range. An empty range makes `gen_range`
/// panic, so the range must hold a number. (`thread_rng` itself gives up
/// only where the system has no randomness to seed it with.)
#[verifier::external_body]
pub(crate) fn random_between(low: u32, high: u32) -> (drawn: u32)
    requires
        low <= high,
    ensures
        low <= drawn <= high,
{
    rand::thread_rng().gen_range(low..=high)
}

} // verus!
