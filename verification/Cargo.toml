[package]
name = "testudo_bonds"
version = "0.1.0"
edition = "2021"
publish = false

[dependencies]
solana-program = "*"
spl-token = "*"
spl-token-2022 = "*"
spl-associated-token-account = "*"
solana-system-interface = "*"
