[package]
name = "eventstreams"
version = "0.3.0"
edition = "2021"
publish = false

[dependencies]
serde_json = "=1.0.154"
sse-client = { version = "=1.1.1", features = ["native-tls"] }
