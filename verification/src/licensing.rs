//! Licensing protection: hash-sealed license records, key obfuscation,
//! protected configuration, and the encrypted envelope a serialized license
//! travels in. A thin consumer of the cipher core.

use vstd::prelude::*;
use vstd::string::StringSliceAdditionalSpecFns;
use vstd::utf8::encode_utf8;
use crate::bytes::{ct_eq_prefix, u64_le_bytes, u64_le_vec};
use crate::encrypt::{aegis_q_decrypt, aegis_q_encrypt, decrypt_ok, decrypt_plain, encrypt_spec};
use crate::hashes::{sha3_512, sha3_512_of};

verus! {

/// The all-zero 16-byte nonce under which obfuscated keys, protected
/// configurations and license envelopes are sealed. Each such value is
/// encrypted once under its own key, so the fixed nonce is never reused
/// with one key.
pub open spec fn zero_nonce() -> Seq<u8> {
    Seq::new(16, |i: int| 0u8)
}

/// A fresh all-zero 16-byte nonce.
fn make_zero_nonce() -> (r: Vec<u8>)
    ensures
        r@ == zero_nonce(),
{
    let nonce: Vec<u8> = vec![0u8; 16];
    proof {
        assert(nonce@ =~= zero_nonce());
    }
    nonce
}

/// The UTF-8 bytes of the first `k` feature strings, concatenated.
pub open spec fn features_bytes(fs: Seq<String>, k: nat) -> Seq<u8>
    decreases k,
{
    if k == 0 {
        Seq::<u8>::empty()
    } else {
        features_bytes(fs, (k - 1) as nat) + encode_utf8(fs[k - 1 as int]@)
    }
}

/// The digest a license is sealed with: SHA3-512 over the license id, the
/// features in order, and the expiry.
pub open spec fn license_digest(id: Seq<char>, features: Seq<String>, expiry: u64) -> Seq<u8> {
    sha3_512_of(encode_utf8(id) + features_bytes(features, features.len()) + u64_le_bytes(expiry))
}

/// License record.
#[derive(Debug)]
pub struct License {
    /// Identifier of the license.
    pub license_id: String,
    /// Named features the license grants.
    pub features: Vec<String>,
    /// Expiry timestamp.
    pub expiry: u64,
    /// Seal over the other three fields; empty until `sign` runs.
    pub signature: Vec<u8>,
}

impl License {
    /// Create a new, not yet signed license.
    pub fn new(license_id: String, features: Vec<String>, expiry: u64) -> (r: License)
        ensures
            r.license_id@ == license_id@,
            r.features == features,
            r.expiry == expiry,
            r.signature@ == Seq::<u8>::empty(),
    {
        License { license_id, features, expiry, signature: Vec::new() }
    }

    /// The hash input shared by `sign` and `verify`.
    fn digest_input(&self) -> (r: Vec<u8>)
        ensures
            r@ == encode_utf8(self.license_id@) + features_bytes(
                self.features@,
                self.features@.len(),
            ) + u64_le_bytes(self.expiry),
    {
        let mut input: Vec<u8> = Vec::new();
        input.extend_from_slice(self.license_id.as_str().as_bytes());
        let mut i: usize = 0;
        while i < self.features.len()
            invariant
                i <= self.features@.len(),
                input@ == encode_utf8(self.license_id@) + features_bytes(
                    self.features@,
                    i as nat,
                ),
            decreases self.features@.len() - i,
        {
            input.extend_from_slice(self.features[i].as_str().as_bytes());
            i = i + 1;
        }
        let expiry_bytes = u64_le_vec(self.expiry);
        input.extend_from_slice(expiry_bytes.as_slice());
        input
    }

    /// Seal the license: store the digest over its fields as the signature.
    pub fn sign(&mut self, signing_key: &[u8])
        ensures
            final(self).license_id@ == old(self).license_id@,
            final(self).features == old(self).features,
            final(self).expiry == old(self).expiry,
            final(self).signature@ == license_digest(
                old(self).license_id@,
                old(self).features@,
                old(self).expiry,
            ),
    {
        let input = self.digest_input();
        self.signature = sha3_512(input.as_slice());
    }

    /// Check the seal: recompute the digest and compare it against the
    /// stored signature in constant time, over their overlapping prefix.
    pub fn verify(&self, signing_key: &[u8]) -> (r: bool)
        ensures
            r == (forall|j: int|
                0 <= j < license_digest(self.license_id@, self.features@, self.expiry).len() && j
                    < self.signature@.len() ==> license_digest(
                    self.license_id@,
                    self.features@,
                    self.expiry,
                )[j] == self.signature@[j]),
    {
        let input = self.digest_input();
        let computed = sha3_512(input.as_slice());
        ct_eq_prefix(computed.as_slice(), self.signature.as_slice())
    }
}

/// A key held only in encrypted form, sealed under an obfuscation seed.
pub struct ObfuscatedKey {
    /// The key, encrypted under the seed and the fixed nonce.
    pub encrypted_key: Vec<u8>,
    /// The seed the key was sealed under.
    pub obfuscation_seed: Vec<u8>,
}

impl ObfuscatedKey {
    /// Seal `key` under `obfuscation_seed`.
    pub fn new(key: &[u8], obfuscation_seed: &[u8]) -> (r: ObfuscatedKey)
        ensures
            r.obfuscation_seed@ == obfuscation_seed@,
            r.encrypted_key@ == encrypt_spec(obfuscation_seed@, zero_nonce(), key@),
    {
        let nonce = make_zero_nonce();
        let encrypted_key = aegis_q_encrypt(obfuscation_seed, nonce.as_slice(), key);
        ObfuscatedKey { encrypted_key, obfuscation_seed: slice_to_vec_u8(obfuscation_seed) }
    }

    /// Recover the sealed key.
    pub fn deobfuscate(&self) -> (r: Result<Vec<u8>, &'static str>)
        ensures
            decrypt_ok(self.obfuscation_seed@, zero_nonce(), self.encrypted_key@) ==> (r matches
                Ok(p) && p@ == decrypt_plain(
                self.obfuscation_seed@,
                zero_nonce(),
                self.encrypted_key@,
            )),
            !decrypt_ok(self.obfuscation_seed@, zero_nonce(), self.encrypted_key@) ==> (r matches
                Err(m)),
    {
        let nonce = make_zero_nonce();
        aegis_q_decrypt(self.obfuscation_seed.as_slice(), nonce.as_slice(), self.encrypted_key.as_slice())
    }
}

/// Copy a byte slice into an owned vector.
fn slice_to_vec_u8(s: &[u8]) -> (r: Vec<u8>)
    ensures
        r@ == s@,
{
    let mut out: Vec<u8> = Vec::new();
    out.extend_from_slice(s);
    out
}

/// Configuration data held only in encrypted form.
pub struct ProtectedConfig {
    /// The configuration bytes, encrypted under the configuration key.
    pub encrypted_config: Vec<u8>,
    /// The nonce the configuration was sealed under.
    pub config_nonce: Vec<u8>,
}

impl ProtectedConfig {
    /// Seal `config_data` under `config_key`.
    pub fn new(config_data: &[u8], config_key: &[u8]) -> (r: ProtectedConfig)
        ensures
            r.config_nonce@ == zero_nonce(),
            r.encrypted_config@ == encrypt_spec(config_key@, zero_nonce(), config_data@),
    {
        let config_nonce = make_zero_nonce();
        let encrypted_config = aegis_q_encrypt(config_key, config_nonce.as_slice(), config_data);
        ProtectedConfig { encrypted_config, config_nonce }
    }

    /// Recover the configuration.
    pub fn retrieve(&self, config_key: &[u8]) -> (r: Result<Vec<u8>, &'static str>)
        ensures
            decrypt_ok(config_key@, self.config_nonce@, self.encrypted_config@) ==> (r matches Ok(
                p,
            ) && p@ == decrypt_plain(config_key@, self.config_nonce@, self.encrypted_config@)),
            !decrypt_ok(config_key@, self.config_nonce@, self.encrypted_config@) ==> (r matches
                Err(m)),
    {
        aegis_q_decrypt(config_key, self.config_nonce.as_slice(), self.encrypted_config.as_slice())
    }
}

/// The encrypted envelope a serialized license travels in. Turning a license
/// record into bytes and back is its caller's concern; the envelope seals
/// and opens the bytes.
pub struct LicenseEnvelope {
    /// The serialized license, encrypted under the envelope key.
    pub encrypted_license: Vec<u8>,
    /// The nonce the envelope was sealed under.
    pub envelope_nonce: Vec<u8>,
}

impl LicenseEnvelope {
    /// Seal serialized license bytes under `envelope_key`.
    pub fn seal(license_bytes: &[u8], envelope_key: &[u8]) -> (r: LicenseEnvelope)
        ensures
            r.envelope_nonce@ == zero_nonce(),
            r.encrypted_license@ == encrypt_spec(envelope_key@, zero_nonce(), license_bytes@),
    {
        let envelope_nonce = make_zero_nonce();
        let encrypted_license = aegis_q_encrypt(
            envelope_key,
            envelope_nonce.as_slice(),
            license_bytes,
        );
        LicenseEnvelope { encrypted_license, envelope_nonce }
    }

    /// Open the envelope, returning the serialized license bytes.
    pub fn open(&self, envelope_key: &[u8]) -> (r: Result<Vec<u8>, &'static str>)
        ensures
            decrypt_ok(envelope_key@, self.envelope_nonce@, self.encrypted_license@) ==> (r
                matches Ok(p) && p@ == decrypt_plain(
                envelope_key@,
                self.envelope_nonce@,
                self.encrypted_license@,
            )),
            !decrypt_ok(envelope_key@, self.envelope_nonce@, self.encrypted_license@) ==> (r
                matches Err(m)),
    {
        aegis_q_decrypt(
            envelope_key,
            self.envelope_nonce.as_slice(),
            self.encrypted_license.as_slice(),
        )
    }
}

} // verus!
