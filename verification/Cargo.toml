[package]
name = "otel_worker"
version = "0.1.0"
edition = "2021"
publish = false

[dependencies]
anyhow = "1"
axum = { version = "0.7", features = ["macros"] }
axum-jrpc = "0.7"
clap = { version = "4", features = ["derive", "env"] }
console_error_panic_hook = "0.1"
futures = "0.3"
http = "=1.5.0"
opentelemetry = "0.27"
opentelemetry-otlp = { version = "0.27", features = ["grpc-tonic"] }
opentelemetry_sdk = { version = "0.27", features = ["rt-tokio"] }
reqwest = { version = "0.12", default-features = false, features = ["json"] }
rust-mcp-schema = "=0.1.11"
serde = { version = "1", features = ["derive"] }
serde_json = "=1.0.154"
serde_urlencoded = "=0.7.1"
thiserror = "2"
time = { version = "=0.3.55", features = ["formatting", "parsing"] }
tokio = { version = "=1.54.1", features = ["full"] }
tokio-stream = { version = "0.1", features = ["sync"] }
tokio-tungstenite = "0.24"
tower-service = "0.3"
tracing = "0.1"
tracing-opentelemetry = "0.28"
tracing-subscriber = { version = "0.3", features = ["env-filter", "json", "time"] }
tracing-web = "0.1"
url = "=2.5.8"
uuid = { version = "=1.29.0", features = ["v4"] }
worker = { version = "0.5", features = ["http", "axum", "d1"] }
