[package]
name = "relay_custody"
version = "0.1.0"
edition = "2021"
publish = false

[dependencies]
solana-program = "*"
spl-associated-token-account = "*"
spl-token-2022 = "*"
