[package]
name = "fhe_fibonacci"
version = "0.1.0"
edition = "2021"
publish = false

[dependencies]
anyhow = "=1.0.104"
tfhe = { version = "=0.6.4", default-features = false, features = ["integer", "x86_64-unix"] }
