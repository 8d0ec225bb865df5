[package]
name = "capture_pipeline"
version = "0.1.0"
edition = "2021"
publish = false

[dependencies]
chrono = "*"
actix-web = { version = "*", default-features = false, features = ["macros"] }
anyhow = "*"
futures-util = "*"
reqwest = { version = "*", default-features = false, features = ["json", "multipart"] }
serde = { version = "*", features = ["derive"] }
serde_json = "*"
tokio = { version = "*", features = ["macros", "rt-multi-thread", "process", "io-util", "sync", "fs"] }
tokio-stream = { version = "*", features = ["sync"] }
