[package]
name = "fcm"
version = "0.1.0"
edition = "2021"
publish = false

[dependencies]
serde = "1"
serde_json = "1"
erased-serde = "*"
reqwest = { version = "*", default-features = false }
