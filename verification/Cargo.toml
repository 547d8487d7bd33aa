[package]
name = "telemetry_bridge"
version = "0.1.0"
edition = "2021"
publish = false

[dependencies]
serde_json = "*"
prometheus = "*"
axum = "*"
tokio = { version = "*", features = ["macros", "rt-multi-thread", "time", "net"] }
rumqttc = "*"
tracing = "*"
tracing-subscriber = "*"
