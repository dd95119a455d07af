[package]
name = "solagent"
version = "0.1.0"
edition = "2021"
publish = false

[dependencies]
lazy_static = "1"
mpl-token-metadata = "5"
rig-core = "0.9"
serde = { version = "1", features = ["derive"] }
serde_json = "1"
solana-sdk = { version = "2", default-features = false }
thiserror = "2"
