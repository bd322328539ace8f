//! Randomness for nonce generation, behind a trusted wrapper: nothing is
//! assumed of the drawn bytes beyond their count.

use vstd::prelude::*;
use rand::RngCore;

verus! {

/// Relies on rand::thread_rng and RngCore::fill_bytes: fills the whole
/// buffer with random bytes. The outcome differs from call to call, so
/// nothing holds of the result but its length.
#[verifier::external_body]
pub fn random_bytes(len: usize) -> (r: Vec<u8>)
    ensures
        r@.len() == len,
{
    let mut bytes = vec![0u8; len];
    rand::thread_rng().fill_bytes(&mut bytes);
    bytes
}

} // verus!
