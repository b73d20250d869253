[package]
name = "nostr_faucet_e2e"
version = "0.1.0"
edition = "2021"
publish = false

[dependencies]
anyhow = "1"
nostr-sdk = { version = "0.44.1", features = ["nip44"] }
serde_json = "1"
tokio = { version = "1", features = ["macros", "rt-multi-thread", "time"] }
tracing = "0.1"
tracing-subscriber = { version = "0.3", features = ["env-filter"] }
