[package]
name = "jito_sdk"
version = "0.1.0"
edition = "2021"
publish = false

[dependencies]
anyhow = "*"
rand = "*"
reqwest = { version = "*", default-features = false }
serde_json = "*"
