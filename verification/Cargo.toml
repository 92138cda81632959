[package]
name = "heart_mirror"
version = "0.1.0"
edition = "2021"
publish = false

[dependencies]
opus = "0.3"
whisper-rs = "*"
serde = { version = "1", features = ["derive"] }
serde_json = "1"
reqwest = { version = "0.12", default-features = false, features = ["json"] }
axum = { version = "0.7", features = ["ws"] }
tokio = { version = "1", features = ["full"] }
tracing = "0.1"
tracing-subscriber = "0.3"
chrono = "0.4"
chrono-tz = "*"
rusqlite = { version = "*", features = ["bundled"] }
