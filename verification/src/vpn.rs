//! Tunnel layer: one cipher state per direction derived from the shared
//! secret — the shared derivation makes one end's sending state the other
//! end's receiving state — a fresh key per frame drawn from that state's
//! bytes and the sequence number, and strict in-order delivery. A thin
//! consumer of the cipher core and the frame format.

use vstd::prelude::*;
use vstd::string::StringSliceAdditionalSpecFns;
use crate::bytes::{u32_le, u64_le, u64_le_bytes, u64_le_vec};
use crate::encrypt::{aegis_q_init, decrypt_ok, decrypt_plain, encrypt_spec};
use crate::framing::{Frame, frame_bytes, FrameType};
use crate::hashes::{sha3_512, sha3_512_of};
use crate::kdf::{kdf_bytes, kdf_shake256};
use crate::state::{init_state, State, state_bytes, StateModel, state_wf};

verus! {

/// The session key a direction's cipher state is built from: 64 KDF bytes
/// from the shared secret and the handshake nonce. Both ends derive it the
/// same way, which is what pairs one end's sending state with the other
/// end's receiving state.
pub open spec fn vpn_key(label: Seq<u8>, shared_secret: Seq<u8>, nonce: Seq<u8>) -> Seq<u8> {
    kdf_bytes(label, shared_secret, nonce, 64)
}

/// The key of one frame: 64 KDF bytes keyed on the direction state's bytes
/// with the sequence number as info.
pub open spec fn frame_key_spec(m: StateModel, sequence: u64) -> Seq<u8> {
    kdf_bytes("aegis-q-transport-vpn-frame".spec_bytes(), state_bytes(m), u64_le_bytes(sequence), 64)
}

/// Whether `data` parses as a complete frame.
pub open spec fn frame_parses(data: Seq<u8>) -> bool {
    data.len() >= 16 && data.len() - 16 >= u32_le(data[9], data[10], data[11], data[12])
}

/// The payload of a parsed frame.
pub open spec fn frame_payload(data: Seq<u8>) -> Seq<u8> {
    data.subrange(16, 16 + u32_le(data[9], data[10], data[11], data[12]) as int)
}

/// The sequence number of a parsed frame.
pub open spec fn frame_seq(data: Seq<u8>) -> u64 {
    u64_le(data.subrange(1, 9))
}

/// Tunnel session state.
pub struct VpnSession {
    /// Cipher state of the sending direction.
    pub encrypt_state: State,
    /// Cipher state of the receiving direction.
    pub decrypt_state: State,
    /// Nonce prefix of outgoing frames.
    pub encrypt_nonce: Vec<u8>,
    /// Nonce prefix of incoming frames.
    pub decrypt_nonce: Vec<u8>,
    /// Next outgoing sequence number.
    pub sequence_send: u64,
    /// Next expected incoming sequence number.
    pub sequence_recv: u64,
}

impl VpnSession {
    /// Build both directions' cipher states from the handshake's shared
    /// secret.
    pub fn from_handshake(shared_secret: &[u8], nonce: &[u8]) -> (r: VpnSession)
        ensures
            r.encrypt_state@ == init_state(
                vpn_key("aegis-q-transport-vpn-session".spec_bytes(), shared_secret@, nonce@),
                nonce@,
            ),
            r.decrypt_state@ == init_state(
                vpn_key("aegis-q-transport-vpn-session".spec_bytes(), shared_secret@, nonce@),
                nonce@,
            ),
            r.encrypt_nonce@ == nonce@,
            r.decrypt_nonce@ == nonce@,
            r.sequence_send == 0,
            r.sequence_recv == 0,
            state_wf(r.encrypt_state@),
            state_wf(r.decrypt_state@),
    {
        let encrypt_key = kdf_shake256(
            "aegis-q-transport-vpn-session".as_bytes(),
            shared_secret,
            nonce,
            64,
        );
        let decrypt_key = kdf_shake256(
            "aegis-q-transport-vpn-session".as_bytes(),
            shared_secret,
            nonce,
            64,
        );
        let encrypt_state = aegis_q_init(encrypt_key.as_slice(), nonce);
        let decrypt_state = aegis_q_init(decrypt_key.as_slice(), nonce);
        let mut encrypt_nonce: Vec<u8> = Vec::new();
        encrypt_nonce.extend_from_slice(nonce);
        let mut decrypt_nonce: Vec<u8> = Vec::new();
        decrypt_nonce.extend_from_slice(nonce);
        VpnSession {
            encrypt_state,
            decrypt_state,
            encrypt_nonce,
            decrypt_nonce,
            sequence_send: 0,
            sequence_recv: 0,
        }
    }

    /// Encrypt `data` into the next outgoing frame: seal it under this
    /// frame's key and nonce, frame it, and advance the send sequence.
    pub fn encrypt_data(&mut self, data: &[u8]) -> (r: Vec<u8>)
        requires
            old(self).sequence_send < u64::MAX,
            data@.len() + 32 <= u32::MAX,
        ensures
            r@ == frame_bytes(
                FrameType::Data,
                encrypt_spec(
                    frame_key_spec(old(self).encrypt_state@, old(self).sequence_send),
                    old(self).encrypt_nonce@ + u64_le_bytes(old(self).sequence_send),
                    data@,
                ),
                old(self).sequence_send,
            ),
            final(self).sequence_send == old(self).sequence_send + 1,
            final(self).sequence_recv == old(self).sequence_recv,
            final(self).encrypt_state@ == old(self).encrypt_state@,
            final(self).decrypt_state@ == old(self).decrypt_state@,
            final(self).encrypt_nonce@ == old(self).encrypt_nonce@,
            final(self).decrypt_nonce@ == old(self).decrypt_nonce@,
    {
        let mut payload: Vec<u8> = Vec::new();
        payload.extend_from_slice(data);
        proof {
            assert(payload@ =~= data@);
        }
        let mut frame = Frame::new(FrameType::Data, payload, self.sequence_send);
        let frame_key = self.frame_key_send();
        frame.encrypt(frame_key.as_slice(), self.encrypt_nonce.as_slice());
        self.sequence_send = self.sequence_send + 1;
        frame.encode()
    }

    /// Decrypt one incoming frame: it must parse, carry exactly the next
    /// expected sequence number, and authenticate under this frame's key and
    /// nonce; only then is the payload returned and the sequence advanced.
    pub fn decrypt_data(&mut self, frame_data: &[u8]) -> (r: Result<Vec<u8>, &'static str>)
        requires
            old(self).sequence_recv < u64::MAX,
        ensures
            frame_data@.len() < 16 ==> (r matches Err(m) && m@ == "Frame too short"@
                && *final(self) == *old(self)),
            frame_data@.len() >= 16 && !frame_parses(frame_data@) ==> (r matches Err(m) && m@
                == "Incomplete frame"@ && *final(self) == *old(self)),
            frame_parses(frame_data@) && frame_seq(frame_data@) != old(self).sequence_recv ==> (
            r matches Err(m) && m@ == "Sequence mismatch"@ && *final(self) == *old(self)),
            frame_parses(frame_data@) && frame_seq(frame_data@) == old(self).sequence_recv
                && !decrypt_ok(
                frame_key_spec(old(self).decrypt_state@, old(self).sequence_recv),
                old(self).decrypt_nonce@ + u64_le_bytes(old(self).sequence_recv),
                frame_payload(frame_data@),
            ) ==> (r matches Err(m) && *final(self) == *old(self) && (m@
                == "Ciphertext too short"@ || m@ == "Authentication failed"@)),
            frame_parses(frame_data@) && frame_seq(frame_data@) == old(self).sequence_recv
                && decrypt_ok(
                frame_key_spec(old(self).decrypt_state@, old(self).sequence_recv),
                old(self).decrypt_nonce@ + u64_le_bytes(old(self).sequence_recv),
                frame_payload(frame_data@),
            ) ==> (r matches Ok(p) && p@ == decrypt_plain(
                frame_key_spec(old(self).decrypt_state@, old(self).sequence_recv),
                old(self).decrypt_nonce@ + u64_le_bytes(old(self).sequence_recv),
                frame_payload(frame_data@),
            ) && final(self).sequence_recv == old(self).sequence_recv + 1
                && final(self).sequence_send == old(self).sequence_send
                && final(self).encrypt_state@ == old(self).encrypt_state@
                && final(self).decrypt_state@ == old(self).decrypt_state@
                && final(self).encrypt_nonce@ == old(self).encrypt_nonce@
                && final(self).decrypt_nonce@ == old(self).decrypt_nonce@),
    {
        let mut frame = match Frame::decode(frame_data) {
            Ok(f) => f,
            Err(e) => {
                return Err(e);
            },
        };
        if frame.sequence != self.sequence_recv {
            return Err("Sequence mismatch");
        }
        let frame_key = self.frame_key_recv();
        match frame.decrypt(frame_key.as_slice(), self.decrypt_nonce.as_slice()) {
            Ok(_) => {},
            Err(e) => {
                return Err(e);
            },
        }
        self.sequence_recv = self.sequence_recv + 1;
        Ok(frame.payload)
    }

    /// Derive the key of the next outgoing frame from the send state's bytes.
    fn frame_key_send(&self) -> (r: Vec<u8>)
        ensures
            r@ == frame_key_spec(self.encrypt_state@, self.sequence_send),
            r@.len() == 64,
    {
        let state_bytes_vec = self.encrypt_state.to_bytes();
        let info = u64_le_vec(self.sequence_send);
        kdf_shake256(
            "aegis-q-transport-vpn-frame".as_bytes(),
            state_bytes_vec.as_slice(),
            info.as_slice(),
            64,
        )
    }

    /// Derive the key of the next incoming frame from the receive state's
    /// bytes.
    fn frame_key_recv(&self) -> (r: Vec<u8>)
        ensures
            r@ == frame_key_spec(self.decrypt_state@, self.sequence_recv),
            r@.len() == 64,
    {
        let state_bytes_vec = self.decrypt_state.to_bytes();
        let info = u64_le_vec(self.sequence_recv);
        kdf_shake256(
            "aegis-q-transport-vpn-frame".as_bytes(),
            state_bytes_vec.as_slice(),
            info.as_slice(),
            64,
        )
    }
}

/// The handshake that agrees a shared secret. The exchange itself stands in
/// for a real key agreement: both hellos are fixed and the secret is the
/// hash of the two keys.
pub struct Handshake {
    /// Bytes the client opens with.
    pub client_hello: Vec<u8>,
    /// Bytes the server answers with.
    pub server_hello: Vec<u8>,
    /// The agreed secret both directions derive their keys from.
    pub shared_secret: Vec<u8>,
}

impl Handshake {
    /// Perform the handshake.
    pub fn perform(client_key: &[u8], server_key: &[u8]) -> (r: Handshake)
        ensures
            r.client_hello@ == "CLIENT_HELLO".spec_bytes(),
            r.server_hello@ == "SERVER_HELLO".spec_bytes(),
            r.shared_secret@ == sha3_512_of(client_key@ + server_key@),
            r.shared_secret@.len() == 64,
    {
        let mut client_hello: Vec<u8> = Vec::new();
        client_hello.extend_from_slice("CLIENT_HELLO".as_bytes());
        let mut server_hello: Vec<u8> = Vec::new();
        server_hello.extend_from_slice("SERVER_HELLO".as_bytes());
        let mut input: Vec<u8> = Vec::new();
        input.extend_from_slice(client_key);
        input.extend_from_slice(server_key);
        proof {
            assert(input@ =~= client_key@ + server_key@);
        }
        let shared_secret = sha3_512(input.as_slice());
        Handshake { client_hello, server_hello, shared_secret }
    }
}

} // verus!
