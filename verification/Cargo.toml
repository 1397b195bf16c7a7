[package]
name = "pixcore_bridge"
version = "0.1.0"
edition = "2021"
publish = false

[dependencies]
keyring = { version = "=3.6.3", features = ["linux-native"] }
dirs = "=7.0.0"
serde = { version = "=1.0.229", features = ["derive"] }
