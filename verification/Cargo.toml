[package]
name = "heart_core"
version = "0.1.0"
edition = "2021"
publish = false

[dependencies]
bluest = "*"
dirs = "*"
futures-lite = "*"
serde = { version = "*", features = ["derive"] }
serde_json = "*"
tokio = { version = "*", features = ["macros", "rt-multi-thread", "sync", "time"] }
