//! ZKMix: a hash-based XOR transform of a fixed 64-byte block, with a
//! companion distribution-matching simulator used only for soundness
//! arguments and testing, never on the encrypt/decrypt path.

use vstd::prelude::*;
use crate::bytes::{xor_bytes, xor_with};
use crate::hashes::{sha3_512, sha3_512_of, shake256, shake256_of};

verus! {

/// ZKMix state size: 64 bytes.
pub const ZK_STATE_SIZE: usize = 64;

/// ZKMix state type.
pub type ZKState = Vec<u8>;

/// What `zk_mix` returns: `state XOR SHA3-512(nonce || state)`.
pub open spec fn zk_mix_spec(state: Seq<u8>, nonce: Seq<u8>) -> Seq<u8> {
    xor_bytes(state, sha3_512_of(nonce + state))
}

/// What `zk_mix_shake` returns: `state XOR SHAKE256(nonce || state, 64)`.
pub open spec fn zk_mix_shake_spec(state: Seq<u8>, nonce: Seq<u8>) -> Seq<u8> {
    xor_bytes(state, shake256_of(nonce + state, ZK_STATE_SIZE as nat))
}

/// The all-zero block hashed by the simulator in place of a real state.
pub open spec fn zk_zero() -> Seq<u8> {
    Seq::new(ZK_STATE_SIZE as nat, |i: int| 0u8)
}

/// Apply the ZKMix transformation `state' = state XOR H(nonce || state)`.
pub fn zk_mix(state: &ZKState, nonce: &[u8]) -> (r: ZKState)
    requires
        state@.len() == ZK_STATE_SIZE,
    ensures
        r@.len() == ZK_STATE_SIZE,
        r@ == zk_mix_spec(state@, nonce@),
{
    let mut input: Vec<u8> = Vec::new();
    input.extend_from_slice(nonce);
    input.extend_from_slice(state.as_slice());
    proof {
        assert(input@ =~= nonce@ + state@);
    }
    let hash = sha3_512(input.as_slice());
    xor_with(state.as_slice(), hash.as_slice())
}

/// Simulator for ZKMix: hash the nonce against an all-zero block and XOR
/// with caller-supplied randomness. Its outputs match the distribution of
/// real ZKMix outputs without access to a real state.
pub fn zk_simulate(nonce: &[u8], randomness: &[u8]) -> (r: ZKState)
    requires
        randomness@.len() == ZK_STATE_SIZE,
    ensures
        r@.len() == ZK_STATE_SIZE,
        r@ == xor_bytes(sha3_512_of(nonce@ + zk_zero()), randomness@),
{
    let zeros: Vec<u8> = vec![0u8; ZK_STATE_SIZE];
    let mut input: Vec<u8> = Vec::new();
    input.extend_from_slice(nonce);
    input.extend_from_slice(zeros.as_slice());
    proof {
        assert(zeros@ =~= zk_zero());
        assert(input@ =~= nonce@ + zk_zero());
    }
    let hash = sha3_512(input.as_slice());
    xor_with(hash.as_slice(), randomness)
}

/// Alternative ZKMix using SHAKE-256 as the extendable-output hash; a
/// deployment picks one of the two schemes and keeps it.
pub fn zk_mix_shake(state: &ZKState, nonce: &[u8]) -> (r: ZKState)
    requires
        state@.len() == ZK_STATE_SIZE,
    ensures
        r@.len() == ZK_STATE_SIZE,
        r@ == zk_mix_shake_spec(state@, nonce@),
{
    let mut input: Vec<u8> = Vec::new();
    input.extend_from_slice(nonce);
    input.extend_from_slice(state.as_slice());
    proof {
        assert(input@ =~= nonce@ + state@);
    }
    let hash = shake256(input.as_slice(), ZK_STATE_SIZE);
    xor_with(state.as_slice(), hash.as_slice())
}

} // verus!
