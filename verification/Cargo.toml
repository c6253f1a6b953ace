[package]
name = "debug_proxy"
version = "0.1.0"
edition = "2021"
publish = false

[dependencies]
chrono = "0.4"
serde_json = "1"
log = "0.4"
env_logger = "0.11"
tokio = { version = "1", features = ["sync", "rt", "rt-multi-thread"] }
