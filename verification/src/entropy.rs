//! The source of the random numbers that the `Random` instruction uses.

use vstd::prelude::*;

verus! {

/// Draws a fresh sixteen-bit number from the thread-local generator, by
/// `rand::random::<u16>()`. The generator documents the value as uniformly
/// distributed; nothing is claimed of it here, so callers are verified for
/// every value that may come back.
#[verifier::external_body]
pub(crate) fn random_word() -> (word: u16) {
    rand::random::<u16>()
}

} // verus!
