[package]
name = "sw_tunnel"
version = "0.1.0"
edition = "2021"
publish = false

[dependencies]
actix-web = "4"
base64 = "0.22"
env_logger = "0.11"
lazy_static = "1"
log = "0.4"
percent-encoding = "2"
quinn = "0.11"
quinn-proto = "0.11"
reqwest = { version = "0.12", default-features = false }
rustls = { version = "0.23", default-features = false, features = ["ring", "std", "logging", "tls12"] }
rustls-pki-types = "1"
serde = { version = "1", features = ["derive"] }
serde_json = "1"
tokio = { version = "1", features = ["full"] }
