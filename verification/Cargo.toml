[package]
name = "bridge"
version = "0.1.0"
edition = "2021"
publish = false

[dependencies]
aes = "0.7"
block-modes = "0.8"
reqwest = { version = "0.11", default-features = false }
serde = "1"
serde_json = "1"
