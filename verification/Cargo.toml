[package]
name = "sol_exec"
version = "0.1.0"
edition = "2021"
publish = false

[dependencies]
solana-sdk = "=1.18.26"
serde_json = "1"
