[package]
name = "documentdb_gateway"
version = "0.1.0"
edition = "2021"
publish = false

[dependencies]
async-trait = "=0.1.92"
bson = "2.15"
dyn-clone = "=1.0.20"
either = "=1.19.0"
opentelemetry = "0.30"
opentelemetry-appender-tracing = "0.30"
opentelemetry-otlp = { version = "0.30", default-features = false, features = ["grpc-tonic", "trace", "metrics", "logs"] }
opentelemetry_sdk = "0.30"
serde = { version = "=1.0.229", features = ["derive"] }
serde_json = "=1.0.154"
tokio = { version = "=1.54.1", features = ["rt-multi-thread", "signal", "macros"] }
tracing = "=0.1.44"
tracing-appender = "=0.2.5"
tracing-opentelemetry = "0.31"
tracing-subscriber = { version = "=0.3.23", features = ["env-filter", "fmt", "registry"] }
