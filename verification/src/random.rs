//! The source of random bytes.

use vstd::prelude::*;

verus! {

/// Draws one byte from `rand::random`, which takes it from the calling
/// thread's generator. Nothing is claimed of the byte: any value may come
/// back, and two calls may differ. The generator is seeded from the
/// operating system on a thread's first draw and panics if that fails.
#[verifier::external_body]
pub(crate) fn random_byte() -> (byte: u8) {
    rand::random::<u8>()
}

} // verus!
