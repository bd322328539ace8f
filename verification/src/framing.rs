//! Transport frame format: a 16-byte header (type, sequence, payload length,
//! reserved) followed by the payload, with the payload encrypted under a
//! per-frame nonce that binds the sequence number.

use vstd::prelude::*;
use vstd::slice::{slice_subrange, slice_to_vec};
use crate::bytes::{
    lemma_u32_le_round_trip,
    lemma_u64_le_round_trip,
    push_u32_le,
    u32_from_le,
    u32_le,
    u32_le_bytes,
    u64_from_le,
    u64_le,
    u64_le_bytes,
    u64_le_vec,
};
use crate::encrypt::{aegis_q_decrypt, aegis_q_encrypt, decrypt_ok, decrypt_plain, encrypt_spec};

verus! {

/// Frame header size in bytes.
pub const FRAME_HEADER_SIZE: usize = 16;

/// Frame type.
#[derive(Debug, Clone, Copy, PartialEq, Eq, Structural)]
pub enum FrameType {
    /// Session establishment.
    Handshake,
    /// Application data.
    Data,
    /// Orderly shutdown.
    Close,
    /// Keep-alive.
    Heartbeat,
}

/// The wire code of each frame type.
pub open spec fn frame_type_code(t: FrameType) -> u8 {
    match t {
        FrameType::Handshake => 1,
        FrameType::Data => 2,
        FrameType::Close => 3,
        FrameType::Heartbeat => 4,
    }
}

/// The frame type a wire code decodes to; unknown codes default to `Data`.
pub open spec fn frame_type_of(value: u8) -> FrameType {
    if value == 1 {
        FrameType::Handshake
    } else if value == 3 {
        FrameType::Close
    } else if value == 4 {
        FrameType::Heartbeat
    } else {
        FrameType::Data
    }
}

impl FrameType {
    /// The wire code of this frame type.
    pub fn code(&self) -> (r: u8)
        ensures
            r == frame_type_code(*self),
    {
        match self {
            FrameType::Handshake => 1,
            FrameType::Data => 2,
            FrameType::Close => 3,
            FrameType::Heartbeat => 4,
        }
    }
}

impl From<u8> for FrameType {
    /// Decode a wire code; unknown codes default to `Data`.
    fn from(value: u8) -> (r: FrameType) {
        if value == 1 {
            FrameType::Handshake
        } else if value == 3 {
            FrameType::Close
        } else if value == 4 {
            FrameType::Heartbeat
        } else {
            FrameType::Data
        }
    }
}

impl vstd::std_specs::convert::FromSpecImpl<u8> for FrameType {
    open spec fn obeys_from_spec() -> bool {
        true
    }

    open spec fn from_spec(v: u8) -> FrameType {
        frame_type_of(v)
    }
}

/// The encoded bytes of a frame: type code, little-endian sequence,
/// little-endian payload length, three reserved zero bytes, payload.
pub open spec fn frame_bytes(t: FrameType, payload: Seq<u8>, sequence: u64) -> Seq<u8> {
    seq![frame_type_code(t)] + u64_le_bytes(sequence) + u32_le_bytes(payload.len() as u32) + seq![
        0u8,
        0u8,
        0u8,
    ] + payload
}

/// The framing law: the encoded bytes of a frame parse back to the same
/// frame — the header length field decodes to the payload's length, the
/// sequence field to the sequence, the type byte to the type, and the body
/// to the payload.
pub proof fn lemma_frame_bytes_parse(t: FrameType, payload: Seq<u8>, sequence: u64)
    requires
        payload.len() <= u32::MAX,
    ensures
        frame_bytes(t, payload, sequence).len() == FRAME_HEADER_SIZE + payload.len(),
        frame_bytes(t, payload, sequence)[0] == frame_type_code(t),
        frame_type_of(frame_bytes(t, payload, sequence)[0]) == t,
        u64_le(frame_bytes(t, payload, sequence).subrange(1, 9)) == sequence,
        u32_le(
            frame_bytes(t, payload, sequence)[9],
            frame_bytes(t, payload, sequence)[10],
            frame_bytes(t, payload, sequence)[11],
            frame_bytes(t, payload, sequence)[12],
        ) == payload.len(),
        frame_bytes(t, payload, sequence).subrange(
            FRAME_HEADER_SIZE as int,
            FRAME_HEADER_SIZE + payload.len(),
        ) == payload,
{
    let fb = frame_bytes(t, payload, sequence);
    lemma_u32_le_round_trip(payload.len() as u32);
    lemma_u64_le_round_trip(sequence);
    assert(fb.subrange(1, 9) =~= u64_le_bytes(sequence));
    assert(fb[9] == u32_le_bytes(payload.len() as u32)[0]);
    assert(fb[10] == u32_le_bytes(payload.len() as u32)[1]);
    assert(fb[11] == u32_le_bytes(payload.len() as u32)[2]);
    assert(fb[12] == u32_le_bytes(payload.len() as u32)[3]);
    assert(fb.subrange(FRAME_HEADER_SIZE as int, FRAME_HEADER_SIZE + payload.len()) =~= payload);
}

/// A transport frame.
#[derive(Debug, Clone)]
pub struct Frame {
    /// What the frame carries.
    pub frame_type: FrameType,
    /// The payload bytes.
    pub payload: Vec<u8>,
    /// Position of the frame in its stream.
    pub sequence: u64,
}

impl Frame {
    /// Create a new frame.
    pub fn new(frame_type: FrameType, payload: Vec<u8>, sequence: u64) -> (r: Frame)
        ensures
            r.frame_type == frame_type,
            r.payload@ == payload@,
            r.sequence == sequence,
    {
        Frame { frame_type, payload, sequence }
    }

    /// Encode the frame to bytes.
    pub fn encode(&self) -> (r: Vec<u8>)
        requires
            self.payload@.len() <= u32::MAX,
        ensures
            r@ == frame_bytes(self.frame_type, self.payload@, self.sequence),
            r@.len() == FRAME_HEADER_SIZE + self.payload@.len(),
    {
        let mut result: Vec<u8> = Vec::new();
        result.push(self.frame_type.code());
        let seq_bytes = u64_le_vec(self.sequence);
        result.extend_from_slice(seq_bytes.as_slice());
        push_u32_le(&mut result, self.payload.len() as u32);
        result.push(0u8);
        result.push(0u8);
        result.push(0u8);
        result.extend_from_slice(self.payload.as_slice());
        proof {
            assert(result@ =~= frame_bytes(self.frame_type, self.payload@, self.sequence));
        }
        result
    }

    /// Decode a frame from bytes. Fails when the input cannot cover the
    /// header, or when the header's payload length exceeds what follows it;
    /// trailing bytes beyond the declared payload are ignored.
    pub fn decode(data: &[u8]) -> (r: Result<Frame, &'static str>)
        ensures
            data@.len() < FRAME_HEADER_SIZE ==> (r matches Err(m) && m@ == "Frame too short"@),
            data@.len() >= FRAME_HEADER_SIZE && data@.len() - FRAME_HEADER_SIZE < u32_le(
                data@[9],
                data@[10],
                data@[11],
                data@[12],
            ) ==> (r matches Err(m) && m@ == "Incomplete frame"@),
            data@.len() >= FRAME_HEADER_SIZE && data@.len() - FRAME_HEADER_SIZE >= u32_le(
                data@[9],
                data@[10],
                data@[11],
                data@[12],
            ) ==> (r matches Ok(f) && f.frame_type == frame_type_of(data@[0]) && f.sequence
                == u64_le(data@.subrange(1, 9)) && f.payload@ == data@.subrange(
                FRAME_HEADER_SIZE as int,
                FRAME_HEADER_SIZE + u32_le(data@[9], data@[10], data@[11], data@[12]),
            )),
    {
        if data.len() < FRAME_HEADER_SIZE {
            return Err("Frame too short");
        }
        let frame_type = FrameType::from(data[0]);
        let sequence = u64_from_le(data, 1);
        let payload_len = u32_from_le(data[9], data[10], data[11], data[12]) as usize;
        if data.len() - FRAME_HEADER_SIZE < payload_len {
            return Err("Incomplete frame");
        }
        let payload = slice_to_vec(
            slice_subrange(data, FRAME_HEADER_SIZE, FRAME_HEADER_SIZE + payload_len),
        );
        Ok(Frame { frame_type, payload, sequence })
    }

    /// Encrypt the payload in place, under a nonce extended with the frame's
    /// sequence number.
    pub fn encrypt(&mut self, key: &[u8], nonce: &[u8])
        ensures
            final(self).frame_type == old(self).frame_type,
            final(self).sequence == old(self).sequence,
            final(self).payload@ == encrypt_spec(
                key@,
                nonce@ + u64_le_bytes(old(self).sequence),
                old(self).payload@,
            ),
            final(self).payload@.len() == old(self).payload@.len() + 32,
    {
        let mut nonce_with_seq: Vec<u8> = Vec::new();
        nonce_with_seq.extend_from_slice(nonce);
        let seq_bytes = u64_le_vec(self.sequence);
        nonce_with_seq.extend_from_slice(seq_bytes.as_slice());
        proof {
            assert(nonce_with_seq@ =~= nonce@ + u64_le_bytes(self.sequence));
        }
        let encrypted = aegis_q_encrypt(key, nonce_with_seq.as_slice(), self.payload.as_slice());
        self.payload = encrypted;
    }

    /// Decrypt the payload in place, under the same per-frame nonce; on
    /// failure the frame is left unchanged and the decryption error is
    /// returned.
    pub fn decrypt(&mut self, key: &[u8], nonce: &[u8]) -> (r: Result<(), &'static str>)
        ensures
            final(self).frame_type == old(self).frame_type,
            final(self).sequence == old(self).sequence,
            decrypt_ok(key@, nonce@ + u64_le_bytes(old(self).sequence), old(self).payload@) ==> (
            r matches Ok(u) && final(self).payload@ == decrypt_plain(
                key@,
                nonce@ + u64_le_bytes(old(self).sequence),
                old(self).payload@,
            )),
            !decrypt_ok(key@, nonce@ + u64_le_bytes(old(self).sequence), old(self).payload@) ==> (
            r matches Err(m) && *final(self) == *old(self) && (m@ == "Ciphertext too short"@ || m@
                == "Authentication failed"@)),
            old(self).payload@.len() < 32 ==> (r matches Err(m) && m@ == "Ciphertext too short"@),
    {
        let mut nonce_with_seq: Vec<u8> = Vec::new();
        nonce_with_seq.extend_from_slice(nonce);
        let seq_bytes = u64_le_vec(self.sequence);
        nonce_with_seq.extend_from_slice(seq_bytes.as_slice());
        proof {
            assert(nonce_with_seq@ =~= nonce@ + u64_le_bytes(self.sequence));
        }
        match aegis_q_decrypt(key, nonce_with_seq.as_slice(), self.payload.as_slice()) {
            Ok(plaintext) => {
                self.payload = plaintext;
                Ok(())
            },
            Err(e) => Err(e),
        }
    }
}

} // verus!
