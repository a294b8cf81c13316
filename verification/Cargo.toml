[package]
name = "webauthn_rp"
version = "0.1.0"
edition = "2021"
publish = false

[dependencies]
base64 = "=0.22.1"
rand = "=0.8.8"
serde_cbor = "=0.11.2"
serde_json = "=1.0.154"
sha2 = "=0.10.9"
serde = { version = "=1.0.229", features = ["derive"] }
actix-web = { version = "=4.18.1", features = ["openssl"] }
actix-files = "=0.6.10"
actix-session = { version = "=0.11.0", features = ["redis-session"] }
env_logger = "=0.11.11"
failure = "=0.1.8"
listenfd = "=1.0.2"
openssl = "=0.10.81"
