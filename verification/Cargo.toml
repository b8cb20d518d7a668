[package]
name = "gateway_ingress"
version = "0.1.0"
edition = "2021"
publish = false

[dependencies]
anyhow = "1"
backoff = "0.3"
config = { version = "0.11", default-features = false, features = ["toml"] }
deadpool = "0.9"
humantime = "2"
log = "0.4"
serde = { version = "1", features = ["derive"] }
tonic = { version = "0.12", default-features = false }
