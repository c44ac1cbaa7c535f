[package]
name = "alumet_core"
version = "0.1.0"
edition = "2021"
publish = false

[dependencies]
anyhow = "1"
hyper = { version = "0.14", features = ["full"] }
log = "0.4"
opentelemetry = "*"
opentelemetry-otlp = { version = "*", features = ["grpc-tonic", "metrics"] }
opentelemetry_sdk = { version = "*", features = ["metrics"] }
prometheus-client = "*"
serde = { version = "1", features = ["derive"] }
tokio = { version = "1", features = ["full"] }
