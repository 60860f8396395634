//! Random draws.

use vstd::prelude::*;

verus! {

/// A number drawn uniformly between `low` and `high` (both included) by
/// rand's thread-local generator (`thread_rng().gen_range(low..=high)`).
/// Nothing is stated of the value but its range. The generator panics if
/// the operating system cannot seed it, which no argument can prevent;
/// `gen_range` itself panics only on an empty range, which `requires`
/// excludes.
#[verifier::external_body]
pub(crate) fn random_between(low: i32, high: i32) -> (r: i32)
    requires
        low <= high,
    ensures
        low <= r <= high,
{
    rand::Rng::gen_range(&mut rand::thread_rng(), low..=high)
}

} // verus!
