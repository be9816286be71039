[package]
name = "storekit"
version = "0.5.0"
edition = "2021"
publish = false

[dependencies]
base64 = "0.22"
serde = { version = "1", features = ["derive"] }
serde_json = "1"
doom-fish-utils = "*"
