[package]
name = "host_statistics"
version = "0.1.0"
edition = "2021"
publish = false

[dependencies]
base36 = "*"
base64 = "*"
ed25519-dalek = "=2.2.0"
serde = { version = "*", features = ["derive"] }
serde_json = "*"
