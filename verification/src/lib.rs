//! Aegis-Q: an authenticated-encryption construction built from four
//! independently derived mix layers applied over ten rounds, together with
//! the key/state derivation and tag machinery that assembles them into
//! `encrypt`/`decrypt`, and the thin collaborator layers (licensing,
//! messenger ratchet and storage, transport framing) that consume them.

pub mod bytes;
pub mod eccodes;
pub mod encrypt;
pub mod framing;
pub mod hashes;
pub mod kdf;
pub mod lattice;
pub mod licensing;
pub mod memory;
pub mod quic;
pub mod ratchet;
pub mod rng;
pub mod round;
pub mod state;
pub mod storage;
pub mod vpn;
pub mod zk;
