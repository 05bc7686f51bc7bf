[package]
name = "kaze_backend"
version = "0.1.0"
edition = "2021"
publish = false

[dependencies]
regex = "=1.13.1"
chrono = { version = "=0.4.45", features = ["serde"] }
chrono-tz = "=0.10.4"
uuid = { version = "=1.29.1", features = ["v4", "serde"] }
sha2 = "=0.10.9"
base64 = "=0.22.1"
serde = { version = "=1.0.229", features = ["derive"] }
serde_json = "=1.0.154"
toml = "=0.8.23"
clap = { version = "=4.6.7", features = ["derive"] }
