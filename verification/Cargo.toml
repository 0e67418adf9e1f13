[package]
name = "crypto_tx"
version = "0.1.0"
edition = "2021"
publish = false

[dependencies]
candid = "*"
ic-ledger-types = "*"
serde = { version = "*", features = ["derive"] }
serde_bytes = "*"
ic-test-state-machine-client = "*"
