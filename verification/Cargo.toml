[package]
name = "otex"
version = "0.1.0"
edition = "2021"
publish = false

[dependencies]
http = "1"
lazy_static = "1"
log = { version = "0.4", features = ["kv"] }
opentelemetry = "*"
opentelemetry-otlp = "*"
opentelemetry-stdout = "*"
opentelemetry_sdk = "*"
serde = { version = "1", features = ["derive"] }
serde_json = "1"
