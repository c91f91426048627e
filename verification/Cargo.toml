[package]
name = "nonce_search"
version = "0.1.0"
edition = "2021"
publish = false

[dependencies]
bs58 = "=0.5.1"
colored = "=2.2.0"
drillx = "=2.2.0"
num_cpus = "=1.17.0"
ore-api = "~2.1"
ore-utils = "=2.1.9"
rand = "=0.8.8"
rayon = "=1.12.0"
solana-program = "=1.18.26"
solana-sdk = "=1.18.26"
tokio = { version = "=1.54.1", features = ["rt-multi-thread", "macros"] }
