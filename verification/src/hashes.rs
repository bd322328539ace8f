//! Trusted wrappers around the hash primitives of the `sha3` and `hkdf`
//! crates. Each hash result is a pure function of the wrapper's input, so it
//! is given an uninterpreted name that the rest of the library's contracts
//! are stated over; nothing but these wrappers says anything about a name.

use vstd::prelude::*;
use sha3::digest::{ExtendableOutput, Update, XofReader};

verus! {

/// The `out_len`-byte SHAKE-256 output for `input`.
pub uninterp spec fn shake256_of(input: Seq<u8>, out_len: nat) -> Seq<u8>;

/// The 32-byte SHA3-256 digest of `input`.
pub uninterp spec fn sha3_256_of(input: Seq<u8>) -> Seq<u8>;

/// The 64-byte SHA3-512 digest of `input`.
pub uninterp spec fn sha3_512_of(input: Seq<u8>) -> Seq<u8>;

/// The `out_len`-byte HKDF-SHA3-512 output for `(salt, ikm, info)`.
pub uninterp spec fn hkdf_sha3_512_of(salt: Seq<u8>, ikm: Seq<u8>, info: Seq<u8>, out_len: nat) -> Seq<u8>;

/// Relies on sha3::Shake256 (through digest's ExtendableOutput/XofReader):
/// an extendable-output hash whose result depends only on the input bytes
/// and fills the output buffer completely.
#[verifier::external_body]
pub(crate) fn shake256(input: &[u8], out_len: usize) -> (r: Vec<u8>)
    ensures
        r@ == shake256_of(input@, out_len as nat),
        r@.len() == out_len,
{
    let mut hasher = sha3::Shake256::default();
    hasher.update(input);
    let mut reader = hasher.finalize_xof();
    let mut out = vec![0u8; out_len];
    reader.read(&mut out);
    out
}

/// Relies on sha3::Sha3_256: a fixed 32-byte digest of the input bytes.
#[verifier::external_body]
pub(crate) fn sha3_256(input: &[u8]) -> (r: Vec<u8>)
    ensures
        r@ == sha3_256_of(input@),
        r@.len() == 32,
{
    let mut hasher = <sha3::Sha3_256 as sha3::Digest>::new();
    sha3::Digest::update(&mut hasher, input);
    sha3::Digest::finalize(hasher).to_vec()
}

/// Relies on sha3::Sha3_512: a fixed 64-byte digest of the input bytes.
#[verifier::external_body]
pub(crate) fn sha3_512(input: &[u8]) -> (r: Vec<u8>)
    ensures
        r@ == sha3_512_of(input@),
        r@.len() == 64,
{
    let mut hasher = <sha3::Sha3_512 as sha3::Digest>::new();
    sha3::Digest::update(&mut hasher, input);
    sha3::Digest::finalize(hasher).to_vec()
}

/// Relies on hkdf::Hkdf::<Sha3_512>::new and expand: HKDF extract-then-expand
/// keyed on `(salt, ikm)`; expand fails exactly when more than 255 hash
/// blocks (255 * 64 bytes) are requested, and otherwise fills the buffer.
#[verifier::external_body]
pub(crate) fn hkdf_sha3_512(salt: &[u8], ikm: &[u8], info: &[u8], out_len: usize) -> (r: Option<Vec<u8>>)
    ensures
        match r {
            Some(v) => out_len <= 255 * 64 && v@ == hkdf_sha3_512_of(
                salt@,
                ikm@,
                info@,
                out_len as nat,
            ) && v@.len() == out_len,
            None => out_len > 255 * 64,
        },
{
    let hk = hkdf::Hkdf::<sha3::Sha3_512>::new(Some(salt), ikm);
    let mut okm = vec![0u8; out_len];
    match hk.expand(info, &mut okm) {
        Ok(()) => Some(okm),
        Err(_) => None,
    }
}

} // verus!
