//! Random numbers. Nothing is known of a random number but its type, so
//! whatever is decided by one is decided by a function that takes the number
//! as an argument and is verified for every value of it.

use vstd::prelude::*;

verus! {

/// A random byte from `rand::random`. Any byte may come back, another one at
/// each call.
#[verifier::external_body]
pub(crate) fn random_u8() -> (r: u8) {
    rand::random::<u8>()
}

/// A random `usize` from `rand::random`. Any value may come back, another
/// one at each call.
#[verifier::external_body]
pub(crate) fn random_usize() -> (r: usize) {
    rand::random::<usize>()
}

} // verus!
