[package]
name = "sigtrace"
version = "0.1.0"
edition = "2021"
publish = false

[dependencies]
axum = "*"
axum-tracing-opentelemetry = "*"
opentelemetry = "*"
opentelemetry-otlp = { version = "*", features = ["grpc-tonic", "trace"] }
opentelemetry_sdk = { version = "*", features = ["rt-tokio", "trace"] }
opentelemetry-semantic-conventions = "*"
tokio = { version = "*", features = ["macros", "net", "rt-multi-thread", "signal", "time"] }
tracing = "*"
tracing-opentelemetry = "*"
tracing-subscriber = { version = "*", features = ["env-filter", "fmt"] }
