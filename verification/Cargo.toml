[package]
name = "restate_common"
version = "0.1.0"
edition = "2021"
publish = false

[dependencies]
bytes = "1"
bytestring = "1"
serde = { version = "1", features = ["derive"] }
tracing = "0.1"
tracing-opentelemetry = "0.18"
opentelemetry_api = "0.18"
uuid = { version = "1", features = ["v4"] }
