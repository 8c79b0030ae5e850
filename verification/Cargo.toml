[package]
name = "hmt_escrow"
version = "0.1.0"
edition = "2021"
publish = false

[dependencies]
solana-program = "=5.1.0"
spl-token = { version = "=9.0.0", features = ["no-entrypoint"] }
clap = "=4.6.7"
solana-sdk = "=5.0.0"
solana-cli-config = "=3.1.14"
solana-logger = "=3.0.0"
