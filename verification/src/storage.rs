//! Encrypted local storage for messenger data: each entry is sealed under a
//! purpose-specific key derived from the master key, with a fresh random
//! nonce. A thin consumer of the cipher core.

use vstd::prelude::*;
use vstd::string::StringSliceAdditionalSpecFns;
use vstd::utf8::encode_utf8;
use crate::encrypt::{aegis_q_decrypt, aegis_q_encrypt, decrypt_ok, decrypt_plain, encrypt_spec};
use crate::hashes::{sha3_256, sha3_256_of};
use crate::rng::random_bytes;

verus! {

/// The storage key for one purpose: SHA3-256 over the master key and the
/// purpose label.
pub open spec fn storage_key_spec(master: Seq<u8>, purpose: Seq<char>) -> Seq<u8> {
    sha3_256_of(master + encode_utf8(purpose))
}

/// Derive the storage key for `purpose` from the master key.
pub fn derive_storage_key(master_key: &[u8], purpose: &str) -> (r: Vec<u8>)
    ensures
        r@ == storage_key_spec(master_key@, purpose@),
        r@.len() == 32,
{
    let mut input: Vec<u8> = Vec::new();
    input.extend_from_slice(master_key);
    input.extend_from_slice(purpose.as_bytes());
    proof {
        assert(input@ =~= master_key@ + encode_utf8(purpose@));
    }
    sha3_256(input.as_slice())
}

/// One encrypted storage entry.
#[derive(Debug)]
pub struct StorageEntry {
    /// The data, encrypted under the purpose's storage key.
    pub encrypted_data: Vec<u8>,
    /// The random nonce the entry was sealed under.
    pub nonce: Vec<u8>,
    /// What the entry is for; decides the storage key.
    pub purpose: String,
}

impl StorageEntry {
    /// Seal `data` for `purpose` under a fresh 16-byte random nonce.
    pub fn store(data: &[u8], master_key: &[u8], purpose: &str) -> (r: StorageEntry)
        ensures
            r.purpose@ == purpose@,
            r.nonce@.len() == 16,
            r.encrypted_data@ == encrypt_spec(
                storage_key_spec(master_key@, purpose@),
                r.nonce@,
                data@,
            ),
            r.encrypted_data@.len() == data@.len() + 32,
    {
        let storage_key = derive_storage_key(master_key, purpose);
        let nonce = random_bytes(16);
        let encrypted_data = aegis_q_encrypt(storage_key.as_slice(), nonce.as_slice(), data);
        StorageEntry { encrypted_data, nonce, purpose: purpose.to_owned() }
    }

    /// Recover the entry's data under the master key it was stored with.
    pub fn retrieve(&self, master_key: &[u8]) -> (r: Result<Vec<u8>, &'static str>)
        ensures
            decrypt_ok(
                storage_key_spec(master_key@, self.purpose@),
                self.nonce@,
                self.encrypted_data@,
            ) ==> (r matches Ok(p) && p@ == decrypt_plain(
                storage_key_spec(master_key@, self.purpose@),
                self.nonce@,
                self.encrypted_data@,
            )),
            !decrypt_ok(
                storage_key_spec(master_key@, self.purpose@),
                self.nonce@,
                self.encrypted_data@,
            ) ==> (r matches Err(m)),
    {
        let storage_key = derive_storage_key(master_key, self.purpose.as_str());
        aegis_q_decrypt(storage_key.as_slice(), self.nonce.as_slice(), self.encrypted_data.as_slice())
    }
}

/// Media encryption.
pub struct MediaStorage;

impl MediaStorage {
    /// Seal a media file under the "media" purpose.
    pub fn encrypt_media(media_data: &[u8], master_key: &[u8]) -> (r: StorageEntry)
        ensures
            r.purpose@ == "media"@,
            r.nonce@.len() == 16,
            r.encrypted_data@ == encrypt_spec(
                storage_key_spec(master_key@, "media"@),
                r.nonce@,
                media_data@,
            ),
    {
        StorageEntry::store(media_data, master_key, "media")
    }

    /// Recover a sealed media file.
    pub fn decrypt_media(entry: &StorageEntry, master_key: &[u8]) -> (r: Result<
        Vec<u8>,
        &'static str,
    >)
        ensures
            decrypt_ok(
                storage_key_spec(master_key@, entry.purpose@),
                entry.nonce@,
                entry.encrypted_data@,
            ) ==> (r matches Ok(p) && p@ == decrypt_plain(
                storage_key_spec(master_key@, entry.purpose@),
                entry.nonce@,
                entry.encrypted_data@,
            )),
            !decrypt_ok(
                storage_key_spec(master_key@, entry.purpose@),
                entry.nonce@,
                entry.encrypted_data@,
            ) ==> (r matches Err(m)),
    {
        entry.retrieve(master_key)
    }
}

/// Profile encryption.
pub struct ProfileStorage;

impl ProfileStorage {
    /// Seal profile data under the "profile" purpose.
    pub fn encrypt_profile(profile_data: &[u8], master_key: &[u8]) -> (r: StorageEntry)
        ensures
            r.purpose@ == "profile"@,
            r.nonce@.len() == 16,
            r.encrypted_data@ == encrypt_spec(
                storage_key_spec(master_key@, "profile"@),
                r.nonce@,
                profile_data@,
            ),
    {
        StorageEntry::store(profile_data, master_key, "profile")
    }

    /// Recover sealed profile data.
    pub fn decrypt_profile(entry: &StorageEntry, master_key: &[u8]) -> (r: Result<
        Vec<u8>,
        &'static str,
    >)
        ensures
            decrypt_ok(
                storage_key_spec(master_key@, entry.purpose@),
                entry.nonce@,
                entry.encrypted_data@,
            ) ==> (r matches Ok(p) && p@ == decrypt_plain(
                storage_key_spec(master_key@, entry.purpose@),
                entry.nonce@,
                entry.encrypted_data@,
            )),
            !decrypt_ok(
                storage_key_spec(master_key@, entry.purpose@),
                entry.nonce@,
                entry.encrypted_data@,
            ) ==> (r matches Err(m)),
    {
        entry.retrieve(master_key)
    }
}

} // verus!
