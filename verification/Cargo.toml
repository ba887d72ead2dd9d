[package]
name = "ci_utils"
version = "0.1.0"
edition = "2021"
publish = false

[dependencies]
anyhow = "1"
flate2 = "1"
flume = "0.10"
futures = "0.3"
futures-util = "0.3"
reqwest = { version = "0.11", default-features = false, features = ["json"] }
serde = { version = "1", features = ["derive"] }
serde_json = "1"
tar = "0.4"
tokio = { version = "1", features = ["fs", "io-util", "process", "rt", "rt-multi-thread"] }
tracing = "0.1"
walkdir = "2"
zip = { version = "0.6", default-features = false, features = ["deflate"] }
