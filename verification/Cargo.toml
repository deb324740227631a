[package]
name = "toka"
version = "0.1.0"
edition = "2021"
publish = false

[dependencies]
vsf = { version = "=0.9.3", features = ["crypto-verify"] }

[dev-dependencies]
ed25519-dalek = "=3.0.0"
blake3 = "=1.8.7"
