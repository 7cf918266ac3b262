[package]
name = "bet_ledger"
version = "0.1.0"
edition = "2021"
publish = false

[dependencies]
near-sdk = { version = "=5.15.1", features = ["non-contract-usage"] }

[dev-dependencies]
serde_json = "=1.0.151"
