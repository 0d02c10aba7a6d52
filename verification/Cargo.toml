[package]
name = "time_mcp_server"
version = "1.0.0"
edition = "2021"
publish = false

[dependencies]
anyhow = "1"
axum = "*"
bytes = "1"
chrono = "0.4"
chrono-tz = "*"
clap = "4"
http-body-util = "*"
hyper = { version = "1", features = ["server", "http1"] }
hyper-util = { version = "*", features = ["tokio"] }
serde = { version = "1", features = ["derive"] }
serde_json = "1"
tokio = { version = "1", features = ["full"] }
tower-http = { version = "*", features = ["cors", "trace"] }
tracing = "0.1"
tracing-subscriber = "0.3"
