//! The round function: each round derives its own lattice parameters,
//! generator matrix and permutation from `(round key, nonce)`, computes the
//! four mixes against the pre-round snapshot of the state, and replaces all
//! four components at once.

use vstd::prelude::*;
use vstd::string::StringSliceAdditionalSpecFns;
use vstd::slice::slice_to_vec;
use crate::bytes::{dec_bytes, dec_str, u64_le_bytes, u64_le_vec, xor_bytes, xor_with};
use crate::eccodes::{
    apply_spec,
    code_mix,
    GeneratorMatrix,
    mat_vec,
    matrix_entries,
    Permutation,
    perm_spec,
};
use crate::hashes::{hkdf_sha3_512, hkdf_sha3_512_of};
use crate::kdf::{kdf_bytes, kdf_shake256};
use crate::lattice::{derive_lattice_params, lattice_mix, lattice_mix_spec, lattice_param_spec};
use crate::state::{State, StateModel, state_wf};
use crate::zk::{zk_mix, zk_mix_spec};

verus! {

/// Number of rounds.
pub const ROUNDS: usize = 10;

/// The mask stream for one round: KDF under the "mask-round" domain, keyed
/// on `round_key || nonce` with the counter as its info bytes.
pub open spec fn mask_stream(round_key: Seq<u8>, nonce: Seq<u8>, counter: u64, len: nat) -> Seq<
    u8,
> {
    kdf_bytes("mask-round".spec_bytes(), round_key + nonce, u64_le_bytes(counter), len)
}

/// What MaskMix does to the mask block: XOR with the round's mask stream.
pub open spec fn mask_mix_spec(mask: Seq<u8>, round_key: Seq<u8>, nonce: Seq<u8>, counter: u64) -> Seq<u8> {
    xor_bytes(mask, mask_stream(round_key, nonce, counter, mask.len()))
}

/// One round over the state model: the four mixes, each a function of the
/// pre-round snapshot alone.
pub open spec fn round_spec(m: StateModel, round_key: Seq<u8>, nonce: Seq<u8>, counter: u64) -> StateModel {
    StateModel {
        lattice: lattice_mix_spec(
            m.lattice,
            lattice_param_spec(round_key, nonce, "aegis-q-lattice-a".spec_bytes()),
            lattice_param_spec(round_key, nonce, "aegis-q-lattice-b".spec_bytes()),
        ),
        code: apply_spec(
            perm_spec(round_key, m.code.len()),
            mat_vec(matrix_entries(round_key, m.code.len(), m.code.len()), m.code),
        ),
        zk: zk_mix_spec(m.zk, nonce),
        mask: mask_mix_spec(m.mask, round_key, nonce, counter),
    }
}

/// The label under which round `i` is expanded: a fixed prefix and the
/// decimal index, so that round 3 and round 30 can never collide.
pub open spec fn round_key_label(i: nat) -> Seq<u8> {
    "aegis-q-round-key-".spec_bytes() + dec_str(i)
}

/// Round key `i`: HKDF-SHA3-512 with the nonce as salt over the key,
/// expanded under the round's label to 64 bytes.
pub open spec fn round_key_spec(key: Seq<u8>, nonce: Seq<u8>, i: nat) -> Seq<u8> {
    hkdf_sha3_512_of(nonce, key, round_key_label(i), 64)
}

/// Apply MaskMix: XOR the mask block with its round stream, in place.
fn mask_mix(state: &mut Vec<u8>, round_key: &[u8], nonce: &[u8], counter: u64)
    ensures
        final(state)@ == mask_mix_spec(old(state)@, round_key@, nonce@, counter),
{
    let mut key_material: Vec<u8> = Vec::new();
    key_material.extend_from_slice(round_key);
    key_material.extend_from_slice(nonce);
    proof {
        assert(key_material@ =~= round_key@ + nonce@);
    }
    let info = u64_le_vec(counter);
    let mask = kdf_shake256(
        "mask-round".as_bytes(),
        key_material.as_slice(),
        info.as_slice(),
        state.len(),
    );
    let mixed = xor_with(state.as_slice(), mask.as_slice());
    *state = mixed;
}

/// Apply one round: derive `(a, b)`, `G` and `P` fresh from
/// `(round_key, nonce)`, compute all four mixes from the pre-round snapshot,
/// then replace the state atomically.
pub fn round(state: &mut State, round_key: &[u8], nonce: &[u8], counter: u64)
    requires
        state_wf(old(state)@),
    ensures
        final(state)@ == round_spec(old(state)@, round_key@, nonce@, counter),
        state_wf(final(state)@),
{
    let (a, b) = derive_lattice_params(round_key, nonce);
    let lattice_new = lattice_mix(&state.lattice, &a, &b);

    let n = state.code.len();
    let generator = GeneratorMatrix::from_key(round_key, nonce, n);
    let permutation = Permutation::from_key(round_key, nonce, n);
    let code_new = code_mix(&state.code, &generator, &permutation);

    let zk_new = zk_mix(&state.zk, nonce);

    let mut mask_new = slice_to_vec(state.mask.as_slice());
    mask_mix(&mut mask_new, round_key, nonce, counter);

    state.lattice = lattice_new;
    state.code = code_new;
    state.zk = zk_new;
    state.mask = mask_new;
}

/// Derive the per-round keys from the master key: HKDF with the nonce as
/// salt, one 64-byte expansion per round under the round's decimal label.
/// Each requested key is far below the expansion limit, so derivation
/// always succeeds.
pub fn derive_round_keys(key: &[u8], nonce: &[u8], num_rounds: usize) -> (r: Vec<Vec<u8>>)
    ensures
        r@.len() == num_rounds,
        forall|i: int|
            0 <= i < num_rounds ==> (#[trigger] r@[i])@ == round_key_spec(key@, nonce@, i as nat),
{
    let mut round_keys: Vec<Vec<u8>> = Vec::new();
    let mut i: usize = 0;
    while i < num_rounds
        invariant
            i <= num_rounds,
            round_keys@.len() == i,
            forall|k: int|
                0 <= k < i ==> (#[trigger] round_keys@[k])@ == round_key_spec(
                    key@,
                    nonce@,
                    k as nat,
                ),
        decreases num_rounds - i,
    {
        let mut label: Vec<u8> = Vec::new();
        label.extend_from_slice("aegis-q-round-key-".as_bytes());
        let digits = dec_bytes(i as u64);
        label.extend_from_slice(digits.as_slice());
        proof {
            assert(label@ =~= round_key_label(i as nat));
        }
        let round_key = match hkdf_sha3_512(nonce, key, label.as_slice(), 64) {
            Some(v) => v,
            None => vstd::pervasive::unreached(),
        };
        round_keys.push(round_key);
        i = i + 1;
    }
    round_keys
}

} // verus!
