[package]
name = "cocbot"
version = "0.1.0"
edition = "2021"
publish = false

[dependencies]
serde_json = "1"
serde = { version = "1", features = ["derive"] }
tokio = { version = "1", features = ["macros", "rt-multi-thread", "sync"] }
serenity = "0.11"
rusqlite = { version = "*", features = ["bundled"] }
