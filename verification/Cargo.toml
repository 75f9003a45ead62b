[package]
name = "stratum_monitor"
version = "0.1.0"
edition = "2021"
publish = false

[dependencies]
axum = "*"
futures-util = "*"
tokio = { version = "*", features = ["full"] }
tokio-stream = "*"
tracing = "*"
tracing-subscriber = "*"
