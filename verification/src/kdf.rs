//! The shared key-derivation helper with strict domain separation. Every
//! sub-key in the system is derived through this exact scheme — the literal
//! prefix and the concatenation order are part of the interoperability
//! contract between all layers.

use vstd::prelude::*;
use vstd::string::StringSliceAdditionalSpecFns;
use crate::hashes::{shake256, shake256_of};

verus! {

/// The literal prefix under which every derivation is domain-separated.
pub open spec fn kdf_prefix() -> Seq<u8> {
    "aegis-q-kdf".spec_bytes()
}

/// The bytes that `kdf_shake256` returns:
/// SHAKE256("aegis-q-kdf" || domain || key_material || info), `out_len` bytes.
pub open spec fn kdf_bytes(domain: Seq<u8>, key_material: Seq<u8>, info: Seq<u8>, out_len: nat) -> Seq<u8> {
    shake256_of(kdf_prefix() + domain + key_material + info, out_len)
}

/// Derive `out_len` bytes from `key_material` and optional `info`, under a
/// domain label.
pub fn kdf_shake256(domain: &[u8], key_material: &[u8], info: &[u8], out_len: usize) -> (r: Vec<
    u8,
>)
    ensures
        r@ == kdf_bytes(domain@, key_material@, info@, out_len as nat),
        r@.len() == out_len,
{
    let mut input: Vec<u8> = Vec::new();
    input.extend_from_slice("aegis-q-kdf".as_bytes());
    input.extend_from_slice(domain);
    input.extend_from_slice(key_material);
    input.extend_from_slice(info);
    proof {
        assert(input@ =~= kdf_prefix() + domain@ + key_material@ + info@);
    }
    shake256(input.as_slice(), out_len)
}

/// Fill an existing buffer with KDF output.
pub fn kdf_shake256_fill(domain: &[u8], key_material: &[u8], info: &[u8], out: &mut Vec<u8>)
    ensures
        final(out)@ == kdf_bytes(domain@, key_material@, info@, old(out)@.len()),
{
    let n = out.len();
    *out = kdf_shake256(domain, key_material, info, n);
}

} // verus!
