[package]
name = "syncrgb"
version = "0.1.0"
edition = "2021"
publish = false

[dependencies]
serde = { version = "1", features = ["derive"] }
toml = "0.8"
log = "0.4"
env_logger = { version = "0.11", default-features = false }
rustfft = "6"
