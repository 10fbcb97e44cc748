[package]
name = "local-memory-mcp"
version = "0.2.0"
edition = "2021"
publish = false

[dependencies]
base64 = "=0.22.1"
dirs = "=6.0.0"
rmcp = { version = "=3.8.0", features = ["server", "transport-io", "macros"] }
rusqlite = { version = "=0.35.0", features = ["bundled"] }
schemars = "=1.2.3"
serde = { version = "=1.0.229", features = ["derive"] }
serde_json = "=1.0.154"
sqlite-vec = "=0.1.9"
thiserror = "=2.0.21"
tokio = { version = "=1.54.1", features = ["full"] }
tracing = "=0.1.44"
tracing-subscriber = { version = "=0.3.23", features = ["env-filter"] }
uuid = { version = "=1.29.0", features = ["v4"] }
