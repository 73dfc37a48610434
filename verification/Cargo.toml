[package]
name = "mcp_client"
version = "0.1.0"
edition = "2021"
publish = false

[dependencies]
serde_json = "1"
serde = { version = "1", features = ["derive"] }
tokio = { version = "1", default-features = false, features = ["sync", "time", "rt"] }
futures = "0.3"
tracing = "0.1"
