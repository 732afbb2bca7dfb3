[package]
name = "x402_rs"
version = "0.1.0"
edition = "2021"
publish = false

[dependencies]
alloy = { version = "*", default-features = false }
serde = { version = "1", features = ["derive"] }
solana-sdk = { version = "*", default-features = false }
