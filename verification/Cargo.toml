[package]
name = "channel_core"
version = "0.1.0"
edition = "2021"
publish = false

[dependencies]
chrono = { version = "=0.4.45", default-features = false, features = ["clock", "std"] }
uuid = { version = "=1.29.0", features = ["v4"] }
tokio = { version = "=1.54.1", features = ["sync", "macros", "rt"] }
tracing = "=0.1.44"
rig-core = "=0.31.0"
