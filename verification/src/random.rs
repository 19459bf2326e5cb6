use vstd::prelude::*;

verus! {

/// Draws one byte from the thread-local generator of the `rand` crate, by a
/// call of `rand::random::<u8>()`.
///
/// Nothing is claimed of the byte: every value may come back, and two calls
/// need not agree. The generator panics if the operating system cannot seed
/// it.
#[verifier::external_body]
pub(crate) fn random_byte() -> (byte: u8) {
    rand::random::<u8>()
}

} // verus!
