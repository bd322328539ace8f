//! Tests of the state, the round function and the four mix components:
//! serialization, the NTT round trip, the permutation inverse law, round-key
//! distinctness, and the derivation helpers.

use aegis_q::bytes::{ct_eq, dec_bytes};
use aegis_q::eccodes::{code_mix, GeneratorMatrix, Permutation};
use aegis_q::kdf::{kdf_shake256, kdf_shake256_fill};
use aegis_q::lattice::{
    derive_lattice_params, lattice_mix, mod_inverse, mod_pow, ntt_forward, ntt_inverse, N, N_INV,
    OMEGA, Q,
};
use aegis_q::memory::{SecureArena, zeroize_vec};
use aegis_q::round::{derive_round_keys, round, ROUNDS};
use aegis_q::state::State;
use aegis_q::zk::{zk_mix, zk_mix_shake, zk_simulate, ZK_STATE_SIZE};

#[test]
fn test_round_basic() {
    let key = b"test-key-12345678";
    let nonce = b"test-nonce";

    let mut state = State::from_key(key, nonce);
    let round_key = b"round-key-123456";

    let before_lattice = state.lattice.clone();
    let before_code = state.code.clone();
    let before_zk = state.zk.clone();
    round(&mut state, round_key, nonce, 0);

    // State should change
    assert_ne!(state.lattice, before_lattice);
    assert_ne!(state.code, before_code);
    assert_ne!(state.zk, before_zk);
}

#[test]
fn test_derive_round_keys() {
    let key = b"test-key-12345678";
    let nonce = b"test-nonce";

    let round_keys = derive_round_keys(key, nonce, 10);
    assert_eq!(round_keys.len(), 10);

    // All keys should be different
    for i in 0..round_keys.len() {
        for j in (i + 1)..round_keys.len() {
            assert_ne!(round_keys[i], round_keys[j]);
        }
    }
}

#[test]
fn test_state_serialization() {
    let key = b"test-key-12345678";
    let nonce = b"test-nonce";

    let state1 = State::from_key(key, nonce);
    let bytes = state1.to_bytes();
    let state2 = State::from_bytes(&bytes).unwrap();

    assert_eq!(state1.lattice, state2.lattice);
    assert_eq!(state1.code, state2.code);
    assert_eq!(state1.zk, state2.zk);
    assert_eq!(state1.mask, state2.mask);
}

#[test]
fn state_from_bytes_too_short() {
    match State::from_bytes(&[0u8; 64]) {
        Ok(_) => panic!("a 64-byte input must be rejected"),
        Err(m) => assert_eq!(m, "Invalid state size"),
    }
}

#[test]
fn round_keys_depend_on_the_round() {
    // round 3's label differs from round 30's: keys at those positions of
    // longer schedules must agree with shorter schedules, position by position
    let key = b"prefix-key";
    let nonce = b"prefix-nonce";
    let five = derive_round_keys(key, nonce, 5);
    let ten = derive_round_keys(key, nonce, ROUNDS);
    for i in 0..5 {
        assert_eq!(five[i], ten[i]);
        assert_eq!(ten[i].len(), 64);
    }
}

#[test]
fn test_lattice_mix_basic() {
    let state: Vec<u32> = (0..N).map(|i| (i as u32) % Q as u32).collect();
    let a: Vec<u32> = (0..N).map(|i| ((i * 2) as u32) % Q as u32).collect();
    let b: Vec<u32> = (0..N).map(|i| ((i * 3) as u32) % Q as u32).collect();

    let result = lattice_mix(&state, &a, &b);
    assert_eq!(result.len(), N);
}

#[test]
fn test_ntt_roundtrip() {
    let poly: Vec<u32> = (0..N).map(|i| (i as u32) % Q as u32).collect();
    let ntt_result = ntt_forward(&poly);
    let inv_result = ntt_inverse(&ntt_result);

    // Should recover original (within modular arithmetic)
    for i in 0..N {
        assert_eq!(poly[i], inv_result[i]);
    }
}

#[test]
fn ntt_parameters_are_sound() {
    // OMEGA has multiplicative order exactly N modulo Q, and N_INV inverts N
    assert_eq!(mod_pow(OMEGA, N, Q), 1);
    assert_eq!(mod_pow(OMEGA, N / 2, Q), Q - 1);
    assert_eq!((N as u64 * N_INV) % Q, 1);
    assert_eq!(mod_inverse(N as u64, Q), N_INV);
}

#[test]
fn mod_pow_small_values() {
    assert_eq!(mod_pow(5, 3, 97), 125 % 97);
    assert_eq!(mod_pow(2, 10, 1000), 24);
    assert_eq!(mod_pow(7, 0, 13), 1);
}

#[test]
fn test_lattice_mix_round() {
    let key = b"test-key-12345678";
    let nonce = b"test-nonce";

    let state: Vec<u32> = (0..N).map(|i| (i as u32) % Q as u32).collect();
    let (a, b) = derive_lattice_params(key, nonce);

    let result = lattice_mix(&state, &a, &b);
    assert_eq!(result.len(), N);
    assert_ne!(result, state); // Should transform
}

#[test]
fn test_code_mix_basic() {
    let key = b"test-key-12345678";
    let nonce = b"test-nonce";
    let dim = 256;

    let state: Vec<u32> = (0..dim).map(|i| i as u32).collect();
    let generator = GeneratorMatrix::from_key(key, nonce, dim);
    let permutation = Permutation::from_key(key, nonce, dim);

    let result = code_mix(&state, &generator, &permutation);
    assert_eq!(result.len(), dim);
}

#[test]
fn test_permutation_inverse() {
    let key = b"test-key-12345678";
    let nonce = b"test-nonce";
    let dim = 4096;

    let perm = Permutation::from_key(key, nonce, dim);
    let state: Vec<u32> = (0..dim).map(|i| i as u32).collect();

    let permuted = perm.apply(&state);
    let restored = perm.apply_inverse(&permuted);

    assert_eq!(state, restored);
}

#[test]
fn test_code_mix_round() {
    let key = b"test-key-12345678";
    let nonce = b"test-nonce";
    let dim = 256;

    let state: Vec<u32> = (0..dim).map(|i| i as u32).collect();
    let generator = GeneratorMatrix::from_key(key, nonce, dim);
    let permutation = Permutation::from_key(key, nonce, dim);

    let result = code_mix(&state, &generator, &permutation);
    assert_eq!(result.len(), dim);
    assert_ne!(result, state); // Should transform
}

#[test]
fn test_zk_mix_round() {
    let state = vec![0x42u8; 64];
    let nonce = b"test-nonce";

    let result = zk_mix(&state, nonce);
    assert_eq!(result.len(), 64);
    assert_ne!(result, state); // Should transform
}

#[test]
fn test_zk_mix_basic() {
    let state = vec![0x42u8; ZK_STATE_SIZE];
    let nonce = b"test-nonce-123";

    let result = zk_mix(&state, nonce);
    assert_eq!(result.len(), ZK_STATE_SIZE);
    assert_ne!(result, state); // Should be different
}

#[test]
fn test_zk_mix_deterministic() {
    let state = vec![0x42u8; ZK_STATE_SIZE];
    let nonce = b"test-nonce-123";

    let result1 = zk_mix(&state, nonce);
    let result2 = zk_mix(&state, nonce);

    assert_eq!(result1, result2); // Should be deterministic
}

#[test]
fn test_zk_simulate() {
    let nonce = b"test-nonce-123";
    // the same drawn bytes a counter starting at one would produce
    let randomness: Vec<u8> = (1..=ZK_STATE_SIZE as u8).collect();

    let result = zk_simulate(nonce, &randomness);
    assert_eq!(result.len(), ZK_STATE_SIZE);
}

#[test]
fn zk_mix_shake_differs_from_plain() {
    let state = vec![0x42u8; ZK_STATE_SIZE];
    let nonce = b"test-nonce-123";
    let a = zk_mix(&state, nonce);
    let b = zk_mix_shake(&state, nonce);
    assert_eq!(b.len(), ZK_STATE_SIZE);
    assert_ne!(a, b);
}

#[test]
fn kdf_output_is_labelled_and_sized() {
    let a = kdf_shake256(b"domain-a", b"key", b"info", 48);
    let b = kdf_shake256(b"domain-b", b"key", b"info", 48);
    let a2 = kdf_shake256(b"domain-a", b"key", b"info", 48);
    assert_eq!(a.len(), 48);
    assert_eq!(a, a2);
    assert_ne!(a, b);
}

#[test]
fn kdf_fill_matches_kdf() {
    let mut buf = vec![0u8; 32];
    kdf_shake256_fill(b"domain-a", b"key", b"info", &mut buf);
    assert_eq!(buf, kdf_shake256(b"domain-a", b"key", b"info", 32));
}

#[test]
fn ct_eq_matches_equality() {
    assert!(ct_eq(b"same-bytes", b"same-bytes"));
    assert!(!ct_eq(b"same-bytes", b"same-bytez"));
    assert!(!ct_eq(b"short", b"longer-bytes"));
}

#[test]
fn dec_bytes_renders_decimal() {
    assert_eq!(dec_bytes(0), b"0");
    assert_eq!(dec_bytes(7), b"7");
    assert_eq!(dec_bytes(30), b"30");
    assert_eq!(dec_bytes(12345), b"12345");
}

#[test]
fn secure_arena_starts_zeroed() {
    let mut arena = SecureArena::new(32);
    assert_eq!(arena.as_slice().len(), 32);
    assert!(arena.as_slice().iter().all(|&b| b == 0));
    arena.as_mut_slice()[0] = 0xAA;
    assert_eq!(arena.as_slice()[0], 0xAA);
    zeroize_vec(vec![1u8, 2, 3]);
}
