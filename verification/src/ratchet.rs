//! Double-ratchet message layer: chain keys derived from a shared root key,
//! a fresh message key per message, and chains advanced by hashing. The two
//! directions' chains start from the same derivation — one peer's sending
//! chain is the other peer's receiving chain — and advance independently
//! with each direction's traffic. A thin consumer of the cipher core.

use vstd::prelude::*;
use vstd::string::StringSliceAdditionalSpecFns;
use crate::bytes::{u32_le_bytes, u32_le_vec};
use crate::encrypt::{aegis_q_decrypt, aegis_q_encrypt, decrypt_ok, decrypt_plain, encrypt_spec};
use crate::hashes::{sha3_512, sha3_512_of};
use crate::kdf::{kdf_bytes, kdf_shake256};

verus! {

/// A chain's initial key: 64 KDF bytes from the root key under the chain
/// label. Both directions start from this same derivation, which is what
/// lets two states built from one root key interoperate.
pub open spec fn chain_init(label: Seq<u8>, root: Seq<u8>) -> Seq<u8> {
    kdf_bytes(label, root, Seq::<u8>::empty(), 64)
}

/// The message key for position `n` of a chain: 64 KDF bytes keyed on the
/// chain key with the message number as info.
pub open spec fn message_key_spec(label: Seq<u8>, chain: Seq<u8>, n: u32) -> Seq<u8> {
    kdf_bytes(label, chain, u32_le_bytes(n), 64)
}

/// A chain key after one step: the hash of the key and the advance label.
pub open spec fn advanced_chain(chain: Seq<u8>) -> Seq<u8> {
    sha3_512_of(chain + "chain-advance".spec_bytes())
}

/// Ratchet state for one conversation.
pub struct RatchetState {
    /// Ratchet private key (placeholder pending a key-exchange layer).
    pub dh_private: Vec<u8>,
    /// Ratchet public key (placeholder pending a key-exchange layer).
    pub dh_public: Vec<u8>,
    /// The shared root key both sides derive their chains from.
    pub root_key: Vec<u8>,
    /// Sending chain key.
    pub chain_key_send: Vec<u8>,
    /// Receiving chain key.
    pub chain_key_recv: Vec<u8>,
    /// Number of messages sent.
    pub message_number_send: u32,
    /// Number of messages received.
    pub message_number_recv: u32,
}

impl RatchetState {
    /// Initialize both chains from the root key.
    pub fn new(root_key: Vec<u8>) -> (r: RatchetState)
        ensures
            r.root_key@ == root_key@,
            r.chain_key_send@ == chain_init(
                "aegis-q-messenger-ratchet-chain".spec_bytes(),
                root_key@,
            ),
            r.chain_key_recv@ == chain_init(
                "aegis-q-messenger-ratchet-chain".spec_bytes(),
                root_key@,
            ),
            r.message_number_send == 0,
            r.message_number_recv == 0,
    {
        let dh_private: Vec<u8> = vec![0u8; 32];
        let dh_public: Vec<u8> = vec![0u8; 32];
        let empty: Vec<u8> = Vec::new();
        let chain_key_send = kdf_shake256(
            "aegis-q-messenger-ratchet-chain".as_bytes(),
            root_key.as_slice(),
            empty.as_slice(),
            64,
        );
        let chain_key_recv = kdf_shake256(
            "aegis-q-messenger-ratchet-chain".as_bytes(),
            root_key.as_slice(),
            empty.as_slice(),
            64,
        );
        RatchetState {
            dh_private,
            dh_public,
            root_key,
            chain_key_send,
            chain_key_recv,
            message_number_send: 0,
            message_number_recv: 0,
        }
    }

    /// Encrypt the next outgoing message: derive its message key from the
    /// sending chain, use the message number as nonce, then advance the
    /// chain.
    pub fn encrypt(&mut self, plaintext: &[u8]) -> (r: Vec<u8>)
        requires
            old(self).message_number_send < u32::MAX,
        ensures
            r@ == encrypt_spec(
                message_key_spec(
                    "aegis-q-messenger-ratchet-message".spec_bytes(),
                    old(self).chain_key_send@,
                    old(self).message_number_send,
                ),
                u32_le_bytes(old(self).message_number_send),
                plaintext@,
            ),
            r@.len() == plaintext@.len() + 32,
            final(self).chain_key_send@ == advanced_chain(old(self).chain_key_send@),
            final(self).message_number_send == old(self).message_number_send + 1,
            final(self).chain_key_recv@ == old(self).chain_key_recv@,
            final(self).message_number_recv == old(self).message_number_recv,
            final(self).root_key@ == old(self).root_key@,
    {
        let info = u32_le_vec(self.message_number_send);
        let message_key = kdf_shake256(
            "aegis-q-messenger-ratchet-message".as_bytes(),
            self.chain_key_send.as_slice(),
            info.as_slice(),
            64,
        );
        let nonce = u32_le_vec(self.message_number_send);
        let ciphertext = aegis_q_encrypt(message_key.as_slice(), nonce.as_slice(), plaintext);
        self.advance_send_chain();
        ciphertext
    }

    /// Decrypt the next incoming message with the receiving chain's message
    /// key; the chain advances only when authentication succeeds.
    pub fn decrypt(&mut self, ciphertext: &[u8]) -> (r: Result<Vec<u8>, &'static str>)
        requires
            old(self).message_number_recv < u32::MAX,
        ensures
            decrypt_ok(
                message_key_spec(
                    "aegis-q-messenger-ratchet-message".spec_bytes(),
                    old(self).chain_key_recv@,
                    old(self).message_number_recv,
                ),
                u32_le_bytes(old(self).message_number_recv),
                ciphertext@,
            ) ==> (r matches Ok(p) && p@ == decrypt_plain(
                message_key_spec(
                    "aegis-q-messenger-ratchet-message".spec_bytes(),
                    old(self).chain_key_recv@,
                    old(self).message_number_recv,
                ),
                u32_le_bytes(old(self).message_number_recv),
                ciphertext@,
            ) && final(self).chain_key_recv@ == advanced_chain(old(self).chain_key_recv@)
                && final(self).message_number_recv == old(self).message_number_recv + 1
                && final(self).chain_key_send@ == old(self).chain_key_send@
                && final(self).message_number_send == old(self).message_number_send),
            !decrypt_ok(
                message_key_spec(
                    "aegis-q-messenger-ratchet-message".spec_bytes(),
                    old(self).chain_key_recv@,
                    old(self).message_number_recv,
                ),
                u32_le_bytes(old(self).message_number_recv),
                ciphertext@,
            ) ==> (r matches Err(m) && *final(self) == *old(self)),
    {
        let info = u32_le_vec(self.message_number_recv);
        let message_key = kdf_shake256(
            "aegis-q-messenger-ratchet-message".as_bytes(),
            self.chain_key_recv.as_slice(),
            info.as_slice(),
            64,
        );
        let nonce = u32_le_vec(self.message_number_recv);
        match aegis_q_decrypt(message_key.as_slice(), nonce.as_slice(), ciphertext) {
            Ok(plaintext) => {
                self.advance_recv_chain();
                Ok(plaintext)
            },
            Err(e) => Err(e),
        }
    }

    /// Advance the sending chain: hash the chain key and count the message.
    fn advance_send_chain(&mut self)
        requires
            old(self).message_number_send < u32::MAX,
        ensures
            final(self).chain_key_send@ == advanced_chain(old(self).chain_key_send@),
            final(self).message_number_send == old(self).message_number_send + 1,
            final(self).chain_key_recv@ == old(self).chain_key_recv@,
            final(self).message_number_recv == old(self).message_number_recv,
            final(self).root_key@ == old(self).root_key@,
    {
        let mut input: Vec<u8> = Vec::new();
        input.extend_from_slice(self.chain_key_send.as_slice());
        input.extend_from_slice("chain-advance".as_bytes());
        proof {
            assert(input@ =~= old(self).chain_key_send@ + "chain-advance".spec_bytes());
        }
        self.chain_key_send = sha3_512(input.as_slice());
        self.message_number_send = self.message_number_send + 1;
    }

    /// Advance the receiving chain: hash the chain key and count the message.
    fn advance_recv_chain(&mut self)
        requires
            old(self).message_number_recv < u32::MAX,
        ensures
            final(self).chain_key_recv@ == advanced_chain(old(self).chain_key_recv@),
            final(self).message_number_recv == old(self).message_number_recv + 1,
            final(self).chain_key_send@ == old(self).chain_key_send@,
            final(self).message_number_send == old(self).message_number_send,
            final(self).root_key@ == old(self).root_key@,
    {
        let mut input: Vec<u8> = Vec::new();
        input.extend_from_slice(self.chain_key_recv.as_slice());
        input.extend_from_slice("chain-advance".as_bytes());
        proof {
            assert(input@ =~= old(self).chain_key_recv@ + "chain-advance".spec_bytes());
        }
        self.chain_key_recv = sha3_512(input.as_slice());
        self.message_number_recv = self.message_number_recv + 1;
    }
}

} // verus!
