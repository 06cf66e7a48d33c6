[package]
name = "walnutbook"
version = "0.1.0"
edition = "2021"
publish = false

[dependencies]
dirs = "*"
rusqlite = { version = "*", features = ["bundled"] }
serde = { version = "*", features = ["derive"] }
serde_json = "*"
tokio = { version = "*", features = ["rt", "sync", "time"] }
