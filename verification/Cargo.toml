[package]
name = "token_metadata"
version = "0.1.0"
edition = "2021"
publish = false

[dependencies]
borsh = "0.10"
serde = { version = "1", features = ["derive"] }
serde_with = "3"
solana-program = "1.17"
spl-token-2022 = { version = "0.9", features = ["no-entrypoint"] }
