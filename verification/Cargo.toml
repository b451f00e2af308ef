[package]
name = "stable_swap"
version = "0.1.0"
edition = "2021"
publish = false

[dependencies]
num-traits = "0.2"
solana-sdk = { version = "=1.3.23", default-features = false, features = ["program", "curve25519-dalek"] }
spl-token = { version = "=2.0.8", default-features = false, features = ["program", "no-entrypoint"] }

[dev-dependencies]
rand = "0.7"
