[package]
name = "muxr_core"
version = "0.1.0"
edition = "2021"
publish = false

[dependencies]
base64 = "0.22"
serde = { version = "1", features = ["derive"] }
serde_json = "1"
bincode = { version = "2", features = ["serde"] }
toml = "0.8"
http = "1"
dashmap = "6"
anyhow = "1"
log = "0.4"
