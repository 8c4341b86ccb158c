[package]
name = "acter-core"
version = "0.1.0"
edition = "2021"
publish = false

[dependencies]
serde = { version = "1", features = ["derive"] }
serde_json = "1"
specta = "*"
thiserror = "*"
tokio = { version = "1", features = ["sync", "macros", "rt", "time"] }
