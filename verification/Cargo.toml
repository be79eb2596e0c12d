[package]
name = "jsonrpsee_http_server"
version = "0.1.0"
edition = "2021"
publish = false

[dependencies]
futures-channel = "0.3"
futures-util = "0.3"
hyper = { version = "0.14", features = ["server", "http1", "http2", "tcp"] }
jsonrpsee-core = { version = "0.15", features = ["server", "http-helpers"] }
jsonrpsee-types = "0.15"
serde = { version = "1", features = ["derive"] }
serde_json = { version = "1", features = ["raw_value"] }
tokio = { version = "1", features = ["net", "rt-multi-thread", "macros"] }
tracing = "0.1"
tracing-futures = "0.2"
