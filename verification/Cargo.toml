[package]
name = "sideways"
version = "0.1.0"
edition = "2021"
publish = false

[dependencies]
cadence = "=1.8.0"
cadence-macros = "=1.8.0"
datadog-opentelemetry = "=0.5.2"
opentelemetry = "=0.32.0"
opentelemetry_sdk = "=0.32.1"
thiserror = "=2.0.21"
tracing = "=0.1.44"
tracing-opentelemetry = "=0.33.0"
tracing-subscriber = { version = "=0.3.23", features = ["env-filter"] }
