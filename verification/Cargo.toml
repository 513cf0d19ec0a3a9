[package]
name = "chattor"
version = "0.1.0"
edition = "2021"
publish = false

[dependencies]
base32 = "=0.4.0"
base64 = "=0.22.1"
sha3 = "=0.10.9"
ed25519-dalek = { version = "=2.2.0", features = ["rand_core"] }
rand = "=0.8.8"
uuid = { version = "=1.29.0", features = ["v4"] }
clap = { version = "=4.6.7", features = ["derive"] }
serde = { version = "=1.0.229", features = ["derive"] }
serde_json = "=1.0.154"
argon2 = "=0.5.3"
hex = "=0.4.3"
x25519-dalek = { version = "=2.0.1", features = ["static_secrets"] }
libsignal-dezire = "=0.2.0"
curve25519-dalek = "=4.1.3"
