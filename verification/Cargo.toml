[package]
name = "connector_rpc"
version = "0.1.0"
edition = "2021"
publish = false

[dependencies]
serde_json = "1"
serde = { version = "1", features = ["derive"] }
axum = "0.8"
tokio = { version = "1", features = ["full"] }
