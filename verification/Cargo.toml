[package]
name = "wallet_gate"
version = "0.1.0"
edition = "2021"
publish = false

[dependencies]
hex = "*"
nacl = "*"
rand = "*"
serde = { version = "*", features = ["derive"] }
solana-sdk = "*"
time = { version = "*", features = ["formatting"] }
