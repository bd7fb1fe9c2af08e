[package]
name = "niri_burst"
version = "0.1.0"
edition = "2021"
publish = false

[dependencies]
anyhow = "*"
niri-ipc = "*"
serde_json = "*"
tokio = { version = "*", features = ["rt", "io-util", "net", "macros"] }
tracing = "*"
tracing-subscriber = { version = "*", features = ["env-filter"] }
