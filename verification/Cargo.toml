[package]
name = "sms_reader"
version = "0.1.0"
edition = "2021"
publish = false

[dependencies]
regex = "1"
chrono = "0.4"
serde = { version = "1", features = ["derive"] }
serde_json = "1"
tokio = { version = "1", features = ["full"] }
reqwest = { version = "0.11", default-features = false, features = ["json"] }
rusqlite = { version = "0.30", features = ["bundled"] }
config = { version = "0.14", default-features = false, features = ["yaml"] }
dotenv = "0.15"
tracing = "0.1"
