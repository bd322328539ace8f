//! End-to-end tests of the encrypt/decrypt envelope: round trips, known
//! scenarios, tamper and key/nonce sensitivity, determinism, the length
//! law, and the nonce-reuse XOR property.

use aegis_q::encrypt::{aegis_q_decrypt, aegis_q_encrypt};
use std::time::Instant;

#[test]
fn test_encrypt_decrypt() {
    let key = b"test-key-123456789012345678901234567890";
    let nonce = b"test-nonce-123456";
    let plaintext = b"Hello, Aegis-Q!";

    let ciphertext = aegis_q_encrypt(key, nonce, plaintext);
    assert_ne!(ciphertext, plaintext);

    let decrypted = aegis_q_decrypt(key, nonce, &ciphertext).unwrap();
    assert_eq!(decrypted, plaintext);
}

#[test]
fn test_encrypt_decrypt_long() {
    let key = b"test-key-123456789012345678901234567890";
    let nonce = b"test-nonce-123456";
    let plaintext = vec![0x42u8; 10000];

    let ciphertext = aegis_q_encrypt(key, nonce, &plaintext);
    let decrypted = aegis_q_decrypt(key, nonce, &ciphertext).unwrap();
    assert_eq!(decrypted, plaintext);
}

#[test]
fn test_authentication_failure() {
    let key = b"test-key-123456789012345678901234567890";
    let nonce = b"test-nonce-123456";
    let plaintext = b"Hello, Aegis-Q!";

    let mut ciphertext = aegis_q_encrypt(key, nonce, plaintext);

    // Tamper with ciphertext
    ciphertext[0] ^= 1;

    let result = aegis_q_decrypt(key, nonce, &ciphertext);
    assert!(result.is_err());
}

#[test]
fn kat_test_1() {
    let key = b"00000000000000000000000000000000";
    let nonce = b"0000000000000000";
    let plaintext = b"";

    let ciphertext = aegis_q_encrypt(key, nonce, plaintext);
    let decrypted = aegis_q_decrypt(key, nonce, &ciphertext).unwrap();

    assert_eq!(plaintext, decrypted.as_slice());
}

#[test]
fn kat_test_2() {
    let key = b"00000000000000000000000000000000";
    let nonce = b"0000000000000000";
    let plaintext = b"Hello, Aegis-Q!";

    let ciphertext = aegis_q_encrypt(key, nonce, plaintext);
    let decrypted = aegis_q_decrypt(key, nonce, &ciphertext).unwrap();

    assert_eq!(plaintext, decrypted.as_slice());
}

#[test]
fn kat_test_3() {
    let key = b"0123456789abcdef0123456789abcdef";
    let nonce = b"fedcba9876543210";
    let plaintext = b"The quick brown fox jumps over the lazy dog";

    let ciphertext = aegis_q_encrypt(key, nonce, plaintext);
    let decrypted = aegis_q_decrypt(key, nonce, &ciphertext).unwrap();

    assert_eq!(plaintext, decrypted.as_slice());
}

#[test]
fn test_constant_time_encryption() {
    // Test that encryption time doesn't depend on plaintext content
    let key = b"test-key-123456789012345678901234567890";
    let nonce = b"test-nonce-123456";

    let plaintext1 = vec![0u8; 1000];
    let plaintext2 = vec![0xFFu8; 1000];
    let plaintext3: Vec<u8> = (0..1000).map(|i| (i % 256) as u8).collect();

    let times = vec![
        measure_time(|| {
            let _ = aegis_q_encrypt(key, nonce, &plaintext1);
        }),
        measure_time(|| {
            let _ = aegis_q_encrypt(key, nonce, &plaintext2);
        }),
        measure_time(|| {
            let _ = aegis_q_encrypt(key, nonce, &plaintext3);
        }),
    ];

    let avg_time = times.iter().sum::<u64>() / times.len() as u64;
    for &time in &times {
        assert!((time as f64) / (avg_time as f64) < 2.0);
        assert!((avg_time as f64) / (time as f64) < 2.0);
    }
}

fn measure_time<F>(f: F) -> u64
where
    F: FnOnce(),
{
    let start = Instant::now();
    f();
    start.elapsed().as_micros() as u64
}

#[test]
fn scenario_all_zero_inputs() {
    // key of 32 zero bytes, nonce of 16 zero bytes, empty plaintext
    let key = [0u8; 32];
    let nonce = [0u8; 16];
    let plaintext: Vec<u8> = Vec::new();

    let ciphertext = aegis_q_encrypt(&key, &nonce, &plaintext);
    assert_eq!(ciphertext.len(), 32);

    let decrypted = aegis_q_decrypt(&key, &nonce, &ciphertext).unwrap();
    assert!(decrypted.is_empty());
}

#[test]
fn scenario_fox_ciphertext_length() {
    let key = b"0123456789abcdef0123456789abcdef";
    let nonce = b"fedcba9876543210";
    let plaintext = b"The quick brown fox jumps over the lazy dog";

    let ciphertext = aegis_q_encrypt(key, nonce, plaintext);
    assert_eq!(ciphertext.len(), plaintext.len() + 32);
}

#[test]
fn encrypt_is_deterministic() {
    let key = b"determinism-key-1234567890123456";
    let nonce = b"determinism-nonc";
    let plaintext = b"the same bytes both times";

    let c1 = aegis_q_encrypt(key, nonce, plaintext);
    let c2 = aegis_q_encrypt(key, nonce, plaintext);
    assert_eq!(c1, c2);
}

#[test]
fn ciphertext_length_law() {
    let key = b"length-law-key-18901234567890123";
    let nonce = b"length-law-nonce";
    for len in [0usize, 1, 44, 1000] {
        let plaintext = vec![0x5au8; len];
        let ciphertext = aegis_q_encrypt(key, nonce, &plaintext);
        assert_eq!(ciphertext.len(), len + 32);
    }
}

#[test]
fn scenario_nonce_reuse_xor() {
    // same key/nonce, two distinct equal-length plaintexts: the XOR of the
    // ciphertext bodies equals the XOR of the plaintexts
    let key = b"0123456789abcdef0123456789abcdef";
    let nonce = b"fedcba9876543210";
    let p1 = b"The quick brown fox jumps over the lazy dog";
    let p2 = b"Pack my box with five dozen liquor jugs!!!!";
    assert_eq!(p1.len(), p2.len());

    let c1 = aegis_q_encrypt(key, nonce, p1);
    let c2 = aegis_q_encrypt(key, nonce, p2);
    for j in 0..p1.len() {
        assert_eq!(c1[j] ^ c2[j], p1[j] ^ p2[j]);
    }
}

#[test]
fn wrong_key_fails() {
    let key1 = b"first-key-1234567890123456789012";
    let key2 = b"other-key-1234567890123456789012";
    let nonce = b"shared-nonce-123";
    let plaintext = b"sensitive";

    let ciphertext = aegis_q_encrypt(key1, nonce, plaintext);
    let result = aegis_q_decrypt(key2, nonce, &ciphertext);
    assert_eq!(result.unwrap_err(), "Authentication failed");
}

#[test]
fn wrong_nonce_fails() {
    let key = b"shared-key-123456789012345678901";
    let nonce1 = b"first-nonce-1234";
    let nonce2 = b"other-nonce-1234";
    let plaintext = b"sensitive";

    let ciphertext = aegis_q_encrypt(key, nonce1, plaintext);
    let result = aegis_q_decrypt(key, nonce2, &ciphertext);
    assert_eq!(result.unwrap_err(), "Authentication failed");
}

#[test]
fn tampered_tag_fails() {
    let key = b"tamper-key-123456789012345678901";
    let nonce = b"tamper-nonce-123";
    let plaintext = b"guarded";

    let mut ciphertext = aegis_q_encrypt(key, nonce, plaintext);
    let last = ciphertext.len() - 1;
    ciphertext[last] ^= 0x80;
    let result = aegis_q_decrypt(key, nonce, &ciphertext);
    assert_eq!(result.unwrap_err(), "Authentication failed");
}

#[test]
fn short_ciphertext_fails() {
    let key = b"short-key-1234567890123456789012";
    let nonce = b"short-nonce-1234";
    let result = aegis_q_decrypt(key, nonce, &[0u8; 31]);
    assert_eq!(result.unwrap_err(), "Ciphertext too short");
}
