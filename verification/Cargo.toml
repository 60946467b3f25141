[package]
name = "telemetry-setup"
version = "0.1.0"
edition = "2021"
publish = false

[dependencies]
axum = "0.8"
opentelemetry = "0.30"
opentelemetry_sdk = "0.30"
opentelemetry-otlp = "0.30"
opentelemetry-appender-tracing = "0.30"
tracing-opentelemetry = "0.31"
serde = { version = "1", features = ["derive"] }
thiserror = "2"
tokio = { version = "1", features = ["rt-multi-thread", "net", "time", "sync"] }
tokio-util = "0.7"
tracing = "0.1"
tracing-core = "0.1"
tracing-journald = "0.3"
tracing-subscriber = { version = "0.3", features = ["env-filter", "fmt", "registry"] }
url = "2"
