[package]
name = "agent_notifier"
version = "0.1.0"
edition = "2021"
publish = false

[dependencies]
axum = "*"
rodio = "*"
serde = { version = "*", features = ["derive"] }
serde_json = "*"
tokio = { version = "*", features = ["full"] }
tokio-stream = "*"
