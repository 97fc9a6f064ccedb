[package]
name = "tracekit"
version = "0.1.0"
edition = "2021"
publish = false

[dependencies]
async-graphql = "7"
async-trait = "0.1"
eyre = "0.6"
http = "=0.2.12"
opentelemetry = "=0.21.0"
opentelemetry-http = "=0.10.0"
opentelemetry-otlp = { version = "=0.14.0", features = ["http-proto"] }
opentelemetry_sdk = { version = "0.21", features = ["rt-tokio"] }
tower-http = { version = "=0.4.4", features = ["trace"] }
tracing = "0.1"
tracing-error = "0.2"
tracing-opentelemetry = "=0.22.0"
tracing-subscriber = { version = "0.3", features = ["env-filter"] }
uuid = { version = "1", features = ["v4"] }
