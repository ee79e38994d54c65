[package]
name = "http_server_bridge"
version = "0.1.0"
edition = "2021"
publish = false

[dependencies]
anyhow = "1"
bytes = "1"
tokio = { version = "1", features = ["sync", "rt", "macros"] }
