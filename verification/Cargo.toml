[package]
name = "x402_gateway"
version = "0.1.0"
edition = "2021"
publish = false

[dependencies]
solana-program = "*"
solana-system-interface = { version = "*", features = ["bincode"] }
