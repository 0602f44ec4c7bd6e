//! The source of randomness that shuffling draws on.

use rand::Rng;
use vstd::prelude::*;

verus! {

/// A number drawn at random from `low` up to, but not including, `high`.
///
/// This is `Rng::gen_range` of the `rand` crate, called with the range
/// `low..high` on the generator of the current thread, which `thread_rng`
/// of that crate hands out. `gen_range` panics on an empty range, so the
/// range has to hold a number. It answers with a number of the range, each
/// with the same chance; of this only the range is stated below, and two
/// calls may give two answers.
#[verifier::external_body]
pub(crate) fn random_index(low: usize, high: usize) -> (index: usize)
    requires
        low < high,
    ensures
        low <= index < high,
{
    rand::thread_rng().gen_range(low..high)
}

} // verus!
