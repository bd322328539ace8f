[package]
name = "aegis_q"
version = "0.1.0"
edition = "2021"
publish = false

[dependencies]
sha3 = "=0.10.9"
hkdf = "=0.12.4"
rand = "=0.8.8"
rand_core = "=0.6.4"
serde = { version = "=1.0.229", features = ["derive"] }
serde_json = "=1.0.151"
