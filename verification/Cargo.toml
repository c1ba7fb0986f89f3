[package]
name = "users_service"
version = "0.1.0"
edition = "2021"
publish = false

[dependencies]
serde_json = "=1.0.151"
anyhow = "=1.0.104"
spin-sdk = "=2.2.0"
