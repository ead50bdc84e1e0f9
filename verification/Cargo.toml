[package]
name = "serde_bytes_base64"
version = "0.1.0"
edition = "2021"
publish = false

[dependencies]
base64 = "0.13"
serde = "1"

[dev-dependencies]
serde_json = "1"
