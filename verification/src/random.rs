//! The one source of chance: the coverage range of a new node.

use rand::Rng;
use vstd::prelude::*;

verus! {

/// Draws a number between `low` and `high`, both included.
///
/// This is `rand::Rng::gen_range` on the generator that `rand::thread_rng`
/// hands out, called with the inclusive range `low..=high`.  Nothing is
/// proved of it.  The contract claims only what holds of every draw: the
/// result lies in the range.  `gen_range` panics on an empty range, which
/// `requires` rules out.  `thread_rng` panics when the operating system
/// cannot seed the generator; no argument can prevent that.
#[verifier::external_body]
pub(crate) fn draw_between(low: u32, high: u32) -> (drawn: u32)
    requires
        low <= high,
    ensures
        low <= drawn <= high,
{
    rand::thread_rng().gen_range(low..=high)
}

} // verus!
