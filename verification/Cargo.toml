[package]
name = "collateral_vault"
version = "0.1.0"
edition = "2021"
publish = false

[dependencies]
anchor-lang = "=1.2.1"
anchor-spl = { version = "=1.2.1", default-features = false, features = ["token", "solana-v3"] }
borsh = "=1.8.1"
solana-sdk = "=5.0.0"
