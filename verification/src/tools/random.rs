//! Random bytes.

use rand::Rng;
use vstd::prelude::*;

verus! {

/// `rand::Rng::gen::<u8>` on the generator that `rand::thread_rng` hands
/// out: one byte of the thread's random stream. Nothing is claimed of the
/// byte, and two calls may differ. The generator is seeded from the operating
/// system on first use and fails only if that source does.
#[verifier::external_body]
pub(crate) fn random_byte() -> u8 {
    rand::thread_rng().gen::<u8>()
}

} // verus!
