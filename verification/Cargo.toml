[package]
name = "keeper"
version = "0.1.0"
edition = "2021"
publish = false

[dependencies]
anyhow = "1"
base64 = "*"
bincode = "1"
dotenvy = "0.15.7"
once_cell = "1"
rusqlite = { version = "*", features = ["bundled"] }
serde_json = "1"
sha2 = "0.10.9"
solana-commitment-config = "2.2.1"
solana-compute-budget-interface = "2.2.2"
solana-sdk = "2.2.2"
