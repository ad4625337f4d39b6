//! The source of random bytes.

use vstd::prelude::*;

verus! {

/// Draws a byte with `rand::random::<u8>()`, which samples the thread-local
/// generator of the `rand` crate. Nothing is claimed of the byte: any value
/// may come back, and two calls may differ. The generator is seeded from the
/// operating system on a thread's first draw, and `rand` panics if that
/// fails; there is no argument here by which a caller could rule it out.
#[verifier::external_body]
pub(crate) fn random_byte() -> (byte: u8) {
    rand::random::<u8>()
}

} // verus!
