[package]
name = "rubika_bot"
version = "0.1.0"
edition = "2021"
publish = false

[dependencies]
reqwest = { version = "0.11", default-features = false, features = ["json", "multipart"] }
tokio = { version = "1", features = ["rt", "time", "fs"] }
parking_lot = "0.12"
serde_json = "1"
thiserror = "1"
log = "0.4"
env_logger = "0.10"
