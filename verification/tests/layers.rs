//! Tests of the thin layers around the cipher core: licensing, messenger
//! ratchet and storage, and the transport frame, stream and tunnel layers.

use aegis_q::framing::{Frame, FrameType};
use aegis_q::licensing::{License, LicenseEnvelope, ObfuscatedKey, ProtectedConfig};
use aegis_q::quic::QuicSession;
use aegis_q::ratchet::RatchetState;
use aegis_q::storage::{MediaStorage, ProfileStorage, StorageEntry};
use aegis_q::vpn::{Handshake, VpnSession};

#[test]
fn test_license_sign_verify() {
    let signing_key = b"signing-key";
    let mut license = License::new(
        "test-license".to_string(),
        vec!["feature1".to_string(), "feature2".to_string()],
        1234567890,
    );

    license.sign(signing_key);
    assert!(license.verify(signing_key));
}

#[test]
fn license_verify_rejects_changed_fields() {
    let signing_key = b"signing-key";
    let mut license = License::new("lic-1".to_string(), vec!["f".to_string()], 99);
    license.sign(signing_key);
    license.expiry = 100;
    assert!(!license.verify(signing_key));
}

#[test]
fn test_obfuscated_key() {
    let key = b"secret-key-123456789012345678901234567890";
    let obf_seed = b"obfuscation-seed-123456789012345678901234567890";

    let obf_key = ObfuscatedKey::new(key, obf_seed);
    let deobf = obf_key.deobfuscate().unwrap();

    assert_eq!(key, deobf.as_slice());
}

#[test]
fn protected_config_round_trip() {
    let config_key = b"config-key-123456789012345678901";
    let config = ProtectedConfig::new(b"setting=enabled", config_key);
    let recovered = config.retrieve(config_key).unwrap();
    assert_eq!(recovered, b"setting=enabled");
    assert!(config.retrieve(b"wrong-key").is_err());
}

#[test]
fn envelope_seal_open() {
    let envelope_key = b"envelope-key-123456789012345678901234567890";
    let license_bytes = b"{\"license_id\":\"test-license\"}";

    let envelope = LicenseEnvelope::seal(license_bytes, envelope_key);
    let opened = envelope.open(envelope_key).unwrap();
    assert_eq!(opened, license_bytes);
    assert!(envelope.open(b"wrong-envelope-key").is_err());
}

#[test]
fn test_ratchet_encrypt_decrypt() {
    let root_key = b"root-key-123456789012345678901234567890".to_vec();
    let mut ratchet = RatchetState::new(root_key);

    let plaintext = b"Hello, Ratchet!";
    let ciphertext = ratchet.encrypt(plaintext);

    // Create new ratchet with same root key for decryption
    let mut ratchet2 = RatchetState::new(b"root-key-123456789012345678901234567890".to_vec());
    let decrypted = ratchet2.decrypt(&ciphertext).unwrap();

    assert_eq!(plaintext, decrypted.as_slice());
}

#[test]
fn test_storage_encrypt_decrypt() {
    let master_key = b"master-key-123456789012345678901234567890";
    let data = b"test-data";

    let entry = StorageEntry::store(data, master_key, "test");
    let retrieved = entry.retrieve(master_key).unwrap();

    assert_eq!(data, retrieved.as_slice());
}

#[test]
fn media_storage_round_trip() {
    let master_key = b"master-key-123456789012345678901234567890";
    let media = MediaStorage::encrypt_media(b"picture-bytes", master_key);
    assert_eq!(media.nonce.len(), 16);
    assert_eq!(media.purpose, "media");
    let recovered = MediaStorage::decrypt_media(&media, master_key).unwrap();
    assert_eq!(recovered, b"picture-bytes");

    // an entry sealed for one purpose does not open under another
    let mut crossed = media;
    crossed.purpose = "profile".to_string();
    assert!(crossed.retrieve(master_key).is_err());
}

#[test]
fn profile_storage_round_trip() {
    let master_key = b"master-key-123456789012345678901234567890";
    let profile = ProfileStorage::encrypt_profile(b"name=someone", master_key);
    assert_eq!(profile.purpose, "profile");
    let recovered = ProfileStorage::decrypt_profile(&profile, master_key).unwrap();
    assert_eq!(recovered, b"name=someone");
}

#[test]
fn test_frame_encode_decode() {
    let frame = Frame::new(FrameType::Data, b"Hello, World!".to_vec(), 12345);

    let encoded = frame.encode();
    let decoded = Frame::decode(&encoded).unwrap();

    assert_eq!(frame.frame_type, decoded.frame_type);
    assert_eq!(frame.payload, decoded.payload);
    assert_eq!(frame.sequence, decoded.sequence);
}

#[test]
fn frame_decode_errors() {
    assert_eq!(Frame::decode(&[0u8; 10]).unwrap_err(), "Frame too short");
    // header declares a longer payload than follows
    let frame = Frame::new(FrameType::Close, vec![1, 2, 3, 4], 7);
    let mut encoded = frame.encode();
    encoded.truncate(encoded.len() - 2);
    assert_eq!(Frame::decode(&encoded).unwrap_err(), "Incomplete frame");
}

#[test]
fn frame_encoding_exact_layout() {
    let frame = Frame::new(FrameType::Heartbeat, vec![0xAB, 0xCD], 0x0102030405060708);
    let encoded = frame.encode();
    let expected: Vec<u8> = vec![
        0x04, // type code
        0x08, 0x07, 0x06, 0x05, 0x04, 0x03, 0x02, 0x01, // sequence, little-endian
        0x02, 0x00, 0x00, 0x00, // payload length, little-endian
        0x00, 0x00, 0x00, // reserved
        0xAB, 0xCD, // payload
    ];
    assert_eq!(encoded, expected);
}

#[test]
fn frame_type_codes_round_trip() {
    for t in [
        FrameType::Handshake,
        FrameType::Data,
        FrameType::Close,
        FrameType::Heartbeat,
    ] {
        let decoded = FrameType::from(t.code());
        assert_eq!(decoded, t);
    }
    // unknown codes default to Data
    assert_eq!(FrameType::from(0x7F), FrameType::Data);
}

#[test]
fn test_quic_session() {
    let session_key = b"session-key-123456789012345678901234567890";
    let session_nonce = b"session-nonce-123456";

    let session = QuicSession::new(session_key.to_vec(), session_nonce.to_vec());
    let stream_id = 1;

    let data = b"Hello, QUIC!";
    let encrypted = session.encrypt_stream(stream_id, data, 0);
    let decrypted = session.decrypt_stream(stream_id, &encrypted, 0).unwrap();

    assert_eq!(data, decrypted.as_slice());
}

#[test]
fn quic_stream_ids_count_up() {
    let mut session = QuicSession::new(b"k".to_vec(), b"n".to_vec());
    assert_eq!(session.create_stream(), 0);
    assert_eq!(session.create_stream(), 1);
    assert_eq!(session.create_stream(), 2);
}

#[test]
fn test_vpn_session() {
    let shared_secret = b"shared-secret-123456789012345678901234567890";
    let nonce = b"vpn-nonce-123456";

    let mut session = VpnSession::from_handshake(shared_secret, nonce);

    let data = b"Hello, VPN!";
    let encrypted = session.encrypt_data(data);
    let decrypted = session.decrypt_data(&encrypted).unwrap();

    assert_eq!(data, decrypted.as_slice());
}

#[test]
fn vpn_rejects_replayed_frames() {
    let shared_secret = b"shared-secret-123456789012345678901234567890";
    let nonce = b"vpn-nonce-123456";
    let mut session = VpnSession::from_handshake(shared_secret, nonce);

    let encrypted = session.encrypt_data(b"one");
    assert!(session.decrypt_data(&encrypted).is_ok());
    // the same frame again carries a stale sequence number
    assert_eq!(
        session.decrypt_data(&encrypted).unwrap_err(),
        "Sequence mismatch"
    );
}

#[test]
fn handshake_shared_secret_is_symmetric_input_hash() {
    let h1 = Handshake::perform(b"client-key", b"server-key");
    let h2 = Handshake::perform(b"client-key", b"server-key");
    assert_eq!(h1.shared_secret, h2.shared_secret);
    assert_eq!(h1.shared_secret.len(), 64);
    assert_eq!(h1.client_hello, b"CLIENT_HELLO");
    assert_eq!(h1.server_hello, b"SERVER_HELLO");
    let h3 = Handshake::perform(b"client-key", b"other-server");
    assert_ne!(h1.shared_secret, h3.shared_secret);
}
