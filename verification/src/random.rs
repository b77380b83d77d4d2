//! The random source.
//!
//! These are the only places where the library draws a random number. Nothing
//! is promised of a draw but its type: every function that uses one is
//! verified for every value that may come back.

use vstd::prelude::*;

verus! {

/// Calls `rand::random::<usize>()`: a `usize` drawn from the thread's
/// generator. Any value may come back, so nothing is stated of it.
#[verifier::external_body]
pub(crate) fn random_usize() -> usize {
    rand::random::<usize>()
}

/// Calls `rand::random::<u8>()`: a byte drawn from the thread's generator.
/// Any value may come back, so nothing is stated of it.
#[verifier::external_body]
pub(crate) fn random_u8() -> u8 {
    rand::random::<u8>()
}

/// Calls `rand::random::<u32>()`: a `u32` drawn from the thread's generator.
/// Any value may come back, so nothing is stated of it.
#[verifier::external_body]
pub(crate) fn random_u32() -> u32 {
    rand::random::<u32>()
}

} // verus!
