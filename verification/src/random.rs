//! The one place where chance enters the library.

use vstd::prelude::*;

verus! {

/// Calls `rand::random::<u64>()`, which draws 64 bits from the generator of
/// the calling thread. Nothing is claimed of the number that comes back.
/// The call takes no input; it fails only where the operating system has
/// no seed to give the generator.
#[verifier::external_body]
pub(crate) fn random_u64() -> u64 {
    rand::random::<u64>()
}

} // verus!
