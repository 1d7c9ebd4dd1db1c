[package]
name = "ryushi"
version = "0.1.0"
edition = "2021"
publish = false

[dependencies]
chrono = { version = "0.4", features = ["serde"] }
futures-util = "0.3"
kameo = "*"
serde = { version = "1", features = ["derive"] }
serde_json = "1"
serde_with = "3"
tokio = { version = "1", features = ["macros", "rt", "sync"] }
tracing = "0.1"
twilight-gateway = "0.16"
twilight-model = "0.16"
