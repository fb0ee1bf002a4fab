[package]
name = "leetify"
version = "0.1.0"
edition = "2021"

[dependencies]
chrono = { version = "0.4", features = ["serde"] }
reqwest = { version = "0.12" }
serde = { version = "1", features = ["derive"] }
serde_json = "1"
thiserror = "1"
