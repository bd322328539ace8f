//! Stream-oriented session layer: per-stream keys expanded from the session
//! key, and per-record nonces binding the stream id and sequence number. A
//! thin consumer of the cipher core.

use vstd::prelude::*;
use crate::bytes::{u32_le_bytes, u32_le_vec, u64_le_bytes, u64_le_vec};
use crate::encrypt::{aegis_q_decrypt, aegis_q_encrypt, decrypt_ok, decrypt_plain, encrypt_spec};
use crate::hashes::{hkdf_sha3_512, hkdf_sha3_512_of};

verus! {

/// A stream's key: HKDF-SHA3-512 with the session nonce as salt over the
/// session key, expanded under the stream id to 64 bytes.
pub open spec fn stream_key_spec(session_key: Seq<u8>, session_nonce: Seq<u8>, stream_id: u32) -> Seq<u8> {
    hkdf_sha3_512_of(session_nonce, session_key, u32_le_bytes(stream_id), 64)
}

/// A record's nonce: the session nonce extended with the stream id and the
/// record's sequence number.
pub open spec fn stream_nonce_spec(session_nonce: Seq<u8>, stream_id: u32, sequence: u64) -> Seq<
    u8,
> {
    session_nonce + u32_le_bytes(stream_id) + u64_le_bytes(sequence)
}

/// A session carrying numbered streams.
pub struct QuicSession {
    /// The session's master key.
    pub session_key: Vec<u8>,
    /// The session's nonce, mixed into every stream key and record nonce.
    pub session_nonce: Vec<u8>,
    /// The ids of the streams opened so far.
    pub stream_ids: Vec<u32>,
}

impl QuicSession {
    /// Create a new session.
    pub fn new(session_key: Vec<u8>, session_nonce: Vec<u8>) -> (r: QuicSession)
        ensures
            r.session_key@ == session_key@,
            r.session_nonce@ == session_nonce@,
            r.stream_ids@ == Seq::<u32>::empty(),
    {
        QuicSession { session_key, session_nonce, stream_ids: Vec::new() }
    }

    /// Open the next stream; ids are handed out in order.
    pub fn create_stream(&mut self) -> (r: u32)
        requires
            old(self).stream_ids@.len() < u32::MAX,
        ensures
            r == old(self).stream_ids@.len(),
            final(self).stream_ids@ == old(self).stream_ids@.push(r),
            final(self).session_key@ == old(self).session_key@,
            final(self).session_nonce@ == old(self).session_nonce@,
    {
        let stream_id = self.stream_ids.len() as u32;
        self.stream_ids.push(stream_id);
        stream_id
    }

    /// Encrypt one record of a stream under the stream's key and the
    /// record's nonce.
    pub fn encrypt_stream(&self, stream_id: u32, data: &[u8], sequence: u64) -> (r: Vec<u8>)
        ensures
            r@ == encrypt_spec(
                stream_key_spec(self.session_key@, self.session_nonce@, stream_id),
                stream_nonce_spec(self.session_nonce@, stream_id, sequence),
                data@,
            ),
            r@.len() == data@.len() + 32,
    {
        let stream_key = self.derive_stream_key(stream_id);
        let nonce = self.stream_nonce(stream_id, sequence);
        aegis_q_encrypt(stream_key.as_slice(), nonce.as_slice(), data)
    }

    /// Decrypt one record of a stream.
    pub fn decrypt_stream(&self, stream_id: u32, ciphertext: &[u8], sequence: u64) -> (r: Result<
        Vec<u8>,
        &'static str,
    >)
        ensures
            decrypt_ok(
                stream_key_spec(self.session_key@, self.session_nonce@, stream_id),
                stream_nonce_spec(self.session_nonce@, stream_id, sequence),
                ciphertext@,
            ) ==> (r matches Ok(p) && p@ == decrypt_plain(
                stream_key_spec(self.session_key@, self.session_nonce@, stream_id),
                stream_nonce_spec(self.session_nonce@, stream_id, sequence),
                ciphertext@,
            )),
            !decrypt_ok(
                stream_key_spec(self.session_key@, self.session_nonce@, stream_id),
                stream_nonce_spec(self.session_nonce@, stream_id, sequence),
                ciphertext@,
            ) ==> (r matches Err(m)),
    {
        let stream_key = self.derive_stream_key(stream_id);
        let nonce = self.stream_nonce(stream_id, sequence);
        aegis_q_decrypt(stream_key.as_slice(), nonce.as_slice(), ciphertext)
    }

    /// Expand the stream-specific key. The 64 requested bytes are far below
    /// the expansion limit, so derivation always succeeds.
    fn derive_stream_key(&self, stream_id: u32) -> (r: Vec<u8>)
        ensures
            r@ == stream_key_spec(self.session_key@, self.session_nonce@, stream_id),
            r@.len() == 64,
    {
        let info = u32_le_vec(stream_id);
        match hkdf_sha3_512(
            self.session_nonce.as_slice(),
            self.session_key.as_slice(),
            info.as_slice(),
            64,
        ) {
            Some(v) => v,
            None => vstd::pervasive::unreached(),
        }
    }

    /// Build the record nonce for `(stream_id, sequence)`.
    fn stream_nonce(&self, stream_id: u32, sequence: u64) -> (r: Vec<u8>)
        ensures
            r@ == stream_nonce_spec(self.session_nonce@, stream_id, sequence),
    {
        let mut nonce: Vec<u8> = Vec::new();
        nonce.extend_from_slice(self.session_nonce.as_slice());
        let id_bytes = u32_le_vec(stream_id);
        nonce.extend_from_slice(id_bytes.as_slice());
        let seq_bytes = u64_le_vec(sequence);
        nonce.extend_from_slice(seq_bytes.as_slice());
        proof {
            assert(nonce@ =~= stream_nonce_spec(self.session_nonce@, stream_id, sequence));
        }
        nonce
    }
}

} // verus!
