[package]
name = "otel_california"
version = "0.1.0"
edition = "2021"
publish = false

[dependencies]
anyhow = "*"
axum = "*"
axum-tracing-opentelemetry = "*"
dotenv = "*"
init-tracing-opentelemetry = "*"
opentelemetry = "*"
opentelemetry-appender-tracing = "*"
opentelemetry-otlp = { version = "*", default-features = false, features = ["grpc-tonic", "trace", "metrics", "logs"] }
opentelemetry_sdk = "*"
opentelemetry-semantic-conventions = "*"
tokio = { version = "*", features = ["rt-multi-thread", "macros", "signal", "net", "sync", "time"] }
tracing = "*"
tracing-opentelemetry = "*"
tracing-opentelemetry-instrumentation-sdk = "*"
tracing-subscriber = "*"
