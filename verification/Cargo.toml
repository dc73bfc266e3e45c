[package]
name = "discord_api"
version = "0.1.0"
edition = "2021"
publish = false

[dependencies]
reqwest = { version = "*", default-features = false }
secrecy = "0.8"
serde_json = "1"
thiserror = "*"
tracing = "*"
