//! The four-part cipher state: a lattice polynomial, a code vector, a
//! zero-knowledge block and a masking block, each derived independently from
//! `(key, nonce)` under its own label, all of fixed shape for the state's
//! lifetime.

use vstd::prelude::*;
use vstd::string::StringSliceAdditionalSpecFns;
use vstd::slice::{slice_subrange, slice_to_vec};
use crate::bytes::{le_u32s, lemma_u32s_le_round_trip, push_u32_le, u32_from_le, u32s_le_bytes};
use crate::eccodes::{CODE_N, CodeState};
use crate::hashes::{shake256, shake256_of};
use crate::lattice::{LatticeState, N as LATTICE_N};
use crate::zk::{ZK_STATE_SIZE, ZKState};

verus! {

/// Mathematical model of a state: the four buffers as sequences.
pub ghost struct StateModel {
    /// Lattice polynomial coefficients.
    pub lattice: Seq<u32>,
    /// Code vector coordinates.
    pub code: Seq<u32>,
    /// Zero-knowledge block bytes.
    pub zk: Seq<u8>,
    /// Masking block bytes.
    pub mask: Seq<u8>,
}

/// A state of the configured shape: 4096 lattice coefficients, `CODE_N`
/// code coordinates, a 64-byte zk block. The mask is only ever XORed, so its
/// length is whatever it was built with (64 bytes on the normal path).
pub open spec fn state_wf(m: StateModel) -> bool {
    &&& m.lattice.len() == LATTICE_N
    &&& m.code.len() == CODE_N
    &&& m.zk.len() == ZK_STATE_SIZE
}

/// One component's derivation stream: SHAKE256 over the shared outer label,
/// the component's inner label, the key and the nonce.
pub open spec fn component_bytes(label: Seq<u8>, key: Seq<u8>, nonce: Seq<u8>, len: nat) -> Seq<
    u8,
> {
    shake256_of("aegis-q-state".spec_bytes() + label + key + nonce, len)
}

/// The state that `State::from_key(key, nonce)` builds.
pub open spec fn init_state(key: Seq<u8>, nonce: Seq<u8>) -> StateModel {
    StateModel {
        lattice: le_u32s(
            component_bytes("lattice".spec_bytes(), key, nonce, (4 * LATTICE_N) as nat),
        ),
        code: le_u32s(component_bytes("code".spec_bytes(), key, nonce, (4 * CODE_N) as nat)),
        zk: component_bytes("zk".spec_bytes(), key, nonce, ZK_STATE_SIZE as nat),
        mask: component_bytes("mask".spec_bytes(), key, nonce, 64),
    }
}

/// Canonical byte serialization: little-endian lattice, little-endian code,
/// zk block, mask block.
pub open spec fn state_bytes(m: StateModel) -> Seq<u8> {
    u32s_le_bytes(m.lattice) + u32s_le_bytes(m.code) + m.zk + m.mask
}

/// The serialization law: the canonical byte layout of a well-formed state
/// parses back to exactly its four components — deserializing what
/// `to_bytes` produced recovers the state.
pub proof fn lemma_state_bytes_parse(m: StateModel)
    requires
        state_wf(m),
    ensures
        state_bytes(m).len() == 4 * LATTICE_N + 4 * CODE_N + ZK_STATE_SIZE + m.mask.len(),
        le_u32s(state_bytes(m).subrange(0, 4 * LATTICE_N)) == m.lattice,
        le_u32s(state_bytes(m).subrange(4 * LATTICE_N, 4 * LATTICE_N + 4 * CODE_N)) == m.code,
        state_bytes(m).subrange(
            4 * LATTICE_N + 4 * CODE_N,
            4 * LATTICE_N + 4 * CODE_N + ZK_STATE_SIZE,
        ) == m.zk,
        state_bytes(m).subrange(
            4 * LATTICE_N + 4 * CODE_N + ZK_STATE_SIZE,
            state_bytes(m).len() as int,
        ) == m.mask,
{
    lemma_u32s_le_round_trip(m.lattice);
    lemma_u32s_le_round_trip(m.code);
    let b = state_bytes(m);
    let lat_end = 4 * LATTICE_N as int;
    let code_end = lat_end + 4 * CODE_N as int;
    let zk_end = code_end + ZK_STATE_SIZE as int;
    assert(b.subrange(0, lat_end) =~= u32s_le_bytes(m.lattice));
    assert(b.subrange(lat_end, code_end) =~= u32s_le_bytes(m.code));
    assert(b.subrange(code_end, zk_end) =~= m.zk);
    assert(b.subrange(zk_end, b.len() as int) =~= m.mask);
}

/// The cipher state.
pub struct State {
    /// LatticeMix state: polynomial over the ring.
    pub lattice: LatticeState,
    /// CodeMix state: code vector.
    pub code: CodeState,
    /// ZKMix state: zero-knowledge layer.
    pub zk: ZKState,
    /// MaskMix state: masking layer.
    pub mask: Vec<u8>,
}

impl View for State {
    type V = StateModel;

    open spec fn view(&self) -> StateModel {
        StateModel { lattice: self.lattice@, code: self.code@, zk: self.zk@, mask: self.mask@ }
    }
}

/// Expand one labelled component stream from `(key, nonce)`.
fn shake_expand(label: &[u8], key: &[u8], nonce: &[u8], len: usize) -> (r: Vec<u8>)
    ensures
        r@ == component_bytes(label@, key@, nonce@, len as nat),
        r@.len() == len,
{
    let mut input: Vec<u8> = Vec::new();
    input.extend_from_slice("aegis-q-state".as_bytes());
    input.extend_from_slice(label);
    input.extend_from_slice(key);
    input.extend_from_slice(nonce);
    proof {
        assert(input@ =~= "aegis-q-state".spec_bytes() + label@ + key@ + nonce@);
    }
    shake256(input.as_slice(), len)
}

/// Decode a byte buffer as consecutive little-endian `u32` words.
fn bytes_to_u32s(bytes: &[u8]) -> (r: Vec<u32>)
    requires
        bytes@.len() % 4 == 0,
    ensures
        r@.len() == bytes@.len() / 4,
        r@ == le_u32s(bytes@),
{
    let total = bytes.len() / 4;
    proof {
        vstd::arithmetic::div_mod::lemma_fundamental_div_mod(bytes@.len() as int, 4);
    }
    let mut out: Vec<u32> = Vec::new();
    let mut i: usize = 0;
    while i < total
        invariant
            i <= total,
            total == bytes@.len() / 4,
            4 * total == bytes@.len(),
            bytes@.len() <= usize::MAX,
            bytes@.len() % 4 == 0,
            out@.len() == i,
            forall|k: int| 0 <= k < i ==> out@[k] == le_u32s(bytes@)[k],
        decreases total - i,
    {
        let v = u32_from_le(bytes[4 * i], bytes[4 * i + 1], bytes[4 * i + 2], bytes[4 * i + 3]);
        out.push(v);
        i = i + 1;
    }
    proof {
        assert(out@ =~= le_u32s(bytes@));
    }
    out
}

/// Serialize a `u32` buffer little-endian.
fn u32s_to_bytes(vals: &Vec<u32>) -> (r: Vec<u8>)
    ensures
        r@ == u32s_le_bytes(vals@),
        r@.len() == 4 * vals@.len(),
{
    let mut out: Vec<u8> = Vec::new();
    let mut i: usize = 0;
    while i < vals.len()
        invariant
            i <= vals@.len(),
            out@ == u32s_le_bytes(vals@.take(i as int)),
            out@.len() == 4 * i,
        decreases vals@.len() - i,
    {
        push_u32_le(&mut out, vals[i]);
        proof {
            let taken = vals@.take(i as int + 1);
            assert(taken.drop_last() =~= vals@.take(i as int));
            assert(taken.last() == vals@[i as int]);
        }
        i = i + 1;
    }
    proof {
        assert(vals@.take(vals@.len() as int) =~= vals@);
    }
    out
}

impl State {
    /// Assemble a state from already-derived components. The buffers must
    /// have the fixed shapes; handing buffers of any other size here is a
    /// programmer error, not a runtime condition.
    pub fn new(lattice: LatticeState, code: CodeState, zk: ZKState, mask: Vec<u8>) -> (r: State)
        requires
            lattice@.len() == LATTICE_N,
            code@.len() == CODE_N,
            zk@.len() == ZK_STATE_SIZE,
        ensures
            r@.lattice == lattice@,
            r@.code == code@,
            r@.zk == zk@,
            r@.mask == mask@,
            state_wf(r@),
    {
        State { lattice, code, zk, mask }
    }

    /// Derive a fresh state from `(key, nonce)`: each of the four buffers
    /// comes from its own labelled expansion. Keys and nonces of any length
    /// are accepted (they are hashed, not length-checked).
    pub fn from_key(key: &[u8], nonce: &[u8]) -> (r: State)
        ensures
            r@ == init_state(key@, nonce@),
            state_wf(r@),
    {
        let lattice_bytes = shake_expand("lattice".as_bytes(), key, nonce, LATTICE_N * 4);
        let lattice = bytes_to_u32s(lattice_bytes.as_slice());
        let code_bytes = shake_expand("code".as_bytes(), key, nonce, CODE_N * 4);
        let code = bytes_to_u32s(code_bytes.as_slice());
        let zk = shake_expand("zk".as_bytes(), key, nonce, ZK_STATE_SIZE);
        let mask = shake_expand("mask".as_bytes(), key, nonce, 64);
        State { lattice, code, zk, mask }
    }

    /// Concatenate the state components into the canonical byte layout.
    pub fn to_bytes(&self) -> (r: Vec<u8>)
        ensures
            r@ == state_bytes(self@),
    {
        let mut result = u32s_to_bytes(&self.lattice);
        let code_bytes = u32s_to_bytes(&self.code);
        result.extend_from_slice(code_bytes.as_slice());
        result.extend_from_slice(self.zk.as_slice());
        result.extend_from_slice(self.mask.as_slice());
        proof {
            assert(result@ =~= state_bytes(self@));
        }
        result
    }

    /// Reconstruct a state from the canonical byte layout: fixed-size
    /// lattice, code and zk prefixes, with any remainder becoming the mask.
    /// Fails when the input cannot cover the fixed prefixes.
    pub fn from_bytes(bytes: &[u8]) -> (r: Result<State, &'static str>)
        ensures
            bytes@.len() < (LATTICE_N + CODE_N) * 4 + ZK_STATE_SIZE ==> r == Err::<
                State,
                &'static str,
            >("Invalid state size"),
            bytes@.len() >= (LATTICE_N + CODE_N) * 4 + ZK_STATE_SIZE ==> (r matches Ok(s)
                && s@.lattice == le_u32s(bytes@.subrange(0, 4 * LATTICE_N))
                && s@.code == le_u32s(
                bytes@.subrange(4 * LATTICE_N, 4 * LATTICE_N + 4 * CODE_N),
            )
                && s@.zk == bytes@.subrange(
                4 * LATTICE_N + 4 * CODE_N,
                4 * LATTICE_N + 4 * CODE_N + ZK_STATE_SIZE,
            )
                && s@.mask == bytes@.subrange(
                4 * LATTICE_N + 4 * CODE_N + ZK_STATE_SIZE,
                bytes@.len() as int,
            ) && state_wf(s@)),
    {
        let lattice_end = LATTICE_N * 4;
        let code_end = lattice_end + CODE_N * 4;
        let zk_end = code_end + ZK_STATE_SIZE;
        if bytes.len() < zk_end {
            return Err("Invalid state size");
        }
        let lattice = bytes_to_u32s(slice_subrange(bytes, 0, lattice_end));
        let code = bytes_to_u32s(slice_subrange(bytes, lattice_end, code_end));
        let zk = slice_to_vec(slice_subrange(bytes, code_end, zk_end));
        let mask = slice_to_vec(slice_subrange(bytes, zk_end, bytes.len()));
        Ok(State { lattice, code, zk, mask })
    }
}

} // verus!
