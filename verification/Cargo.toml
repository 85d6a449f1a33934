[package]
name = "vapor_telemetry"
version = "0.1.0"
edition = "2021"
publish = false

[dependencies]
regex = "=1.13.1"
tokio = { version = "=1.54.1", features = ["net", "rt", "macros", "time", "sync"] }
tokio-util = { version = "=0.7.20", features = ["codec", "net"] }
futures-util = { version = "=0.3.34", features = ["sink"] }
thiserror = "=1.0.69"
serde = { version = "=1.0.229", features = ["derive"] }
serde_json = "1"
tracing = "=0.1.44"
tracing-subscriber = "=0.3.23"
