//! The simulated I/O operation: an opaque draw reduced to the declared range.

use vstd::prelude::*;

verus! {

/// Relies on rand::random::<u32>: a value drawn from the thread-local
/// generator, uniform over all of u32. Nothing can be promised of a random
/// value, so this carries no contract; every caller must hold for any outcome.
#[verifier::external_body]
fn random_u32() -> u32 {
    rand::random::<u32>()
}

/// The simulated operation's declared result range: every result is below this.
pub const IO_RESULT_BOUND: u32 = 100;

/// The simulated I/O operation: produces a number in the declared range.
///
/// The draw itself is opaque; only its reduction into the range is this
/// library's logic. The delay that makes a real suspension observable is the
/// caller's: a background worker sleeps before invoking this.
pub fn perform_io() -> (r: u32)
    ensures
        r < IO_RESULT_BOUND,
{
    let raw = random_u32();
    raw % IO_RESULT_BOUND
}

} // verus!
