//! The authenticated-encryption envelope: derive the state and the round
//! keys from `(key, nonce)`, run the ten rounds, then draw the keystream and
//! the authentication tag from the final state bytes.
//!
//! The state, and with it the keystream, depends on `(key, nonce)` alone and
//! never on the plaintext. Encrypting two plaintexts under one `(key,
//! nonce)` pair therefore leaks their XOR (see `lemma_nonce_reuse_xor`):
//! callers must never reuse a nonce under one key.

use vstd::prelude::*;
use vstd::string::StringSliceAdditionalSpecFns;
use vstd::slice::slice_subrange;
use crate::bytes::{ct_eq, xor_bytes, xor_with};
use crate::hashes::{sha3_256, sha3_256_of, shake256, shake256_of};
use crate::round::{derive_round_keys, round, round_key_spec, round_spec, ROUNDS};
use crate::state::{init_state, State, state_bytes, StateModel, state_wf};

verus! {

/// The state after the first `k` rounds under `(key, nonce)`: round `i`
/// uses round key `i` and counter `i`, strictly in order.
#[verifier::opaque]
pub open spec fn state_after_rounds(key: Seq<u8>, nonce: Seq<u8>, k: nat) -> StateModel
    decreases k,
{
    if k == 0 {
        init_state(key, nonce)
    } else {
        round_spec(
            state_after_rounds(key, nonce, (k - 1) as nat),
            round_key_spec(key, nonce, (k - 1) as nat),
            nonce,
            (k - 1) as u64,
        )
    }
}

/// The state both sides hold after all rounds.
pub open spec fn final_state(key: Seq<u8>, nonce: Seq<u8>) -> StateModel {
    state_after_rounds(key, nonce, ROUNDS as nat)
}

/// The keystream: an XOF read of the final state bytes.
pub open spec fn keystream(key: Seq<u8>, nonce: Seq<u8>, len: nat) -> Seq<u8> {
    shake256_of(state_bytes(final_state(key, nonce)), len)
}

/// The ciphertext body: the plaintext XORed with the keystream.
pub open spec fn cipher_body(key: Seq<u8>, nonce: Seq<u8>, plaintext: Seq<u8>) -> Seq<u8> {
    xor_bytes(plaintext, keystream(key, nonce, plaintext.len()))
}

/// The authentication tag over a state and a ciphertext body.
pub open spec fn tag_spec(m: StateModel, data: Seq<u8>) -> Seq<u8> {
    sha3_256_of(state_bytes(m) + data)
}

/// What `aegis_q_encrypt` returns: body followed by the 32-byte tag.
pub open spec fn encrypt_spec(key: Seq<u8>, nonce: Seq<u8>, plaintext: Seq<u8>) -> Seq<u8> {
    cipher_body(key, nonce, plaintext) + tag_spec(
        final_state(key, nonce),
        cipher_body(key, nonce, plaintext),
    )
}

/// Whether decryption of `ct` under `(key, nonce)` succeeds: the input
/// covers a tag, and the recomputed tag over the body matches it.
pub open spec fn decrypt_ok(key: Seq<u8>, nonce: Seq<u8>, ct: Seq<u8>) -> bool {
    &&& ct.len() >= 32
    &&& tag_spec(final_state(key, nonce), ct.take(ct.len() - 32)) == ct.skip(ct.len() - 32)
}

/// The plaintext a successful decryption returns: the body XORed with the
/// regenerated keystream.
pub open spec fn decrypt_plain(key: Seq<u8>, nonce: Seq<u8>, ct: Seq<u8>) -> Seq<u8> {
    xor_bytes(ct.take(ct.len() - 32), keystream(key, nonce, (ct.len() - 32) as nat))
}

/// Derive the keystream from the final state bytes.
fn kdf(state: &State, length: usize) -> (r: Vec<u8>)
    ensures
        r@ == shake256_of(state_bytes(state@), length as nat),
        r@.len() == length,
{
    let bytes = state.to_bytes();
    shake256(bytes.as_slice(), length)
}

/// Compute the authentication tag over the state bytes and the data.
fn generate_tag(state: &State, data: &[u8]) -> (r: Vec<u8>)
    ensures
        r@ == tag_spec(state@, data@),
        r@.len() == 32,
{
    let mut input = state.to_bytes();
    input.extend_from_slice(data);
    proof {
        assert(input@ =~= state_bytes(state@) + data@);
    }
    sha3_256(input.as_slice())
}

/// Initialize the cipher state from `(key, nonce)`. The pre-keystream state
/// is exposed so collaborators can hash its serialization for further
/// sub-key derivation.
pub fn aegis_q_init(key: &[u8], nonce: &[u8]) -> (r: State)
    ensures
        r@ == init_state(key@, nonce@),
        state_wf(r@),
{
    State::from_key(key, nonce)
}

/// Run the ten rounds from the initial state under `(key, nonce)`.
fn run_rounds(key: &[u8], nonce: &[u8]) -> (r: State)
    ensures
        r@ == final_state(key@, nonce@),
        state_wf(r@),
{
    let mut state = aegis_q_init(key, nonce);
    let round_keys = derive_round_keys(key, nonce, ROUNDS);
    proof {
        reveal_with_fuel(state_after_rounds, 1);
    }
    let mut i: usize = 0;
    while i < ROUNDS
        invariant
            i <= ROUNDS,
            round_keys@.len() == ROUNDS,
            forall|k: int|
                0 <= k < ROUNDS ==> (#[trigger] round_keys@[k])@ == round_key_spec(
                    key@,
                    nonce@,
                    k as nat,
                ),
            state@ == state_after_rounds(key@, nonce@, i as nat),
            state_wf(state@),
        decreases ROUNDS - i,
    {
        round(&mut state, round_keys[i].as_slice(), nonce, i as u64);
        i = i + 1;
        proof {
            reveal_with_fuel(state_after_rounds, 1);
            assert(state@ == state_after_rounds(key@, nonce@, i as nat));
        }
    }
    state
}

/// Encrypt `plaintext` under `(key, nonce)`. The result is the XORed body
/// followed by a 32-byte authentication tag; its length is always
/// `plaintext.len() + 32`. Identical inputs give byte-identical results.
pub fn aegis_q_encrypt(key: &[u8], nonce: &[u8], plaintext: &[u8]) -> (r: Vec<u8>)
    ensures
        r@.len() == plaintext@.len() + 32,
        r@ == encrypt_spec(key@, nonce@, plaintext@),
{
    let state = run_rounds(key, nonce);
    let ks = kdf(&state, plaintext.len());
    let mut ciphertext = xor_with(plaintext, ks.as_slice());
    let tag = generate_tag(&state, ciphertext.as_slice());
    ciphertext.extend_from_slice(tag.as_slice());
    proof {
        assert(ciphertext@ =~= encrypt_spec(key@, nonce@, plaintext@));
    }
    ciphertext
}

/// Decrypt `ciphertext` under `(key, nonce)`. Fails on inputs shorter than
/// the tag, and on any input whose recomputed tag (compared in constant
/// time) does not match its stored tag; no plaintext material leaves on
/// failure. Exactly the ciphertexts accepted by `decrypt_ok` decrypt.
pub fn aegis_q_decrypt(key: &[u8], nonce: &[u8], ciphertext: &[u8]) -> (r: Result<
    Vec<u8>,
    &'static str,
>)
    ensures
        ciphertext@.len() < 32 ==> (r matches Err(m) && m@ == "Ciphertext too short"@),
        ciphertext@.len() >= 32 && !decrypt_ok(key@, nonce@, ciphertext@) ==> (r matches Err(m)
            && m@ == "Authentication failed"@),
        decrypt_ok(key@, nonce@, ciphertext@) ==> (r matches Ok(p) && p@ == decrypt_plain(
            key@,
            nonce@,
            ciphertext@,
        )),
{
    if ciphertext.len() < 32 {
        return Err("Ciphertext too short");
    }
    let split = ciphertext.len() - 32;
    let encrypted_data = slice_subrange(ciphertext, 0, split);
    let tag = slice_subrange(ciphertext, split, ciphertext.len());
    proof {
        assert(encrypted_data@ =~= ciphertext@.take(split as int));
        assert(tag@ =~= ciphertext@.skip(split as int));
    }
    let state = run_rounds(key, nonce);
    let computed_tag = generate_tag(&state, encrypted_data);
    if !ct_eq(computed_tag.as_slice(), tag) {
        return Err("Authentication failed");
    }
    let ks = kdf(&state, split);
    let plaintext = xor_with(encrypted_data, ks.as_slice());
    Ok(plaintext)
}

/// The round-trip law: a ciphertext with encrypt's contract — the encrypted
/// bytes of `pt` under `(key, nonce)`, one tag longer than the plaintext —
/// always passes decryption, and decrypts to exactly `pt`.
pub proof fn lemma_encrypt_decrypt_round_trip(key: Seq<u8>, nonce: Seq<u8>, pt: Seq<u8>, ct: Seq<
    u8,
>)
    requires
        ct == encrypt_spec(key, nonce, pt),
        ct.len() == pt.len() + 32,
    ensures
        decrypt_ok(key, nonce, ct),
        decrypt_plain(key, nonce, ct) == pt,
{
    let body = cipher_body(key, nonce, pt);
    let tag = tag_spec(final_state(key, nonce), body);
    assert(body.len() == pt.len());
    assert(ct.take(ct.len() - 32) =~= body);
    assert(ct.skip(ct.len() - 32) =~= tag);
    let ks = keystream(key, nonce, pt.len());
    assert forall|j: int| 0 <= j < pt.len() implies decrypt_plain(key, nonce, ct)[j] == pt[j] by {
        let p = pt[j];
        let k = ks[j];
        assert(((p ^ k) ^ k) == p) by (bit_vector);
    }
    assert(decrypt_plain(key, nonce, ct) =~= pt);
}

/// The nonce-reuse law: under one `(key, nonce)` pair the keystream does not
/// depend on the plaintext, so the XOR of the ciphertext bodies of two
/// equal-length plaintexts equals the XOR of the plaintexts.
pub proof fn lemma_nonce_reuse_xor(key: Seq<u8>, nonce: Seq<u8>, p1: Seq<u8>, p2: Seq<u8>)
    requires
        p1.len() == p2.len(),
    ensures
        forall|j: int|
            0 <= j < p1.len() ==> cipher_body(key, nonce, p1)[j] ^ cipher_body(key, nonce, p2)[j]
                == p1[j] ^ p2[j],
{
    let ks = keystream(key, nonce, p1.len());
    assert forall|j: int|
        0 <= j < p1.len() implies cipher_body(key, nonce, p1)[j] ^ cipher_body(key, nonce, p2)[j]
        == p1[j] ^ p2[j] by {
        let a = p1[j];
        let b = p2[j];
        let k = ks[j];
        assert(((a ^ k) ^ (b ^ k)) == (a ^ b)) by (bit_vector);
    }
}

} // verus!
