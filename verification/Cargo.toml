[package]
name = "hoppscotch_agent"
version = "0.1.0"
edition = "2021"
publish = false

[dependencies]
chrono = { version = "0.4", features = ["serde"] }
dashmap = { version = "6", features = ["serde"] }
reqwest = { version = "0.12", default-features = false, features = ["multipart"] }
serde = { version = "1", features = ["derive"] }
tokio-util = "0.7"
warp = { version = "0.3", default-features = false }
