[package]
name = "nebula"
version = "0.1.0"
edition = "2021"
publish = false

[dependencies]
validator = "*"
serde = { version = "1", features = ["derive"] }
serde_json = "1"
tokio = { version = "1", features = ["full"] }
tracing = "0.1"
