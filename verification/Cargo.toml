[package]
name = "tako_ipc"
version = "0.1.0"
edition = "2021"
publish = false

[dependencies]
ciborium = "0.2"
serde = { version = "1", features = ["derive"] }
thiserror = "2"
tokio = { version = "1", features = ["net", "io-util", "time", "sync", "rt", "rt-multi-thread", "macros"] }
tracing = "0.1"
uuid = { version = "1", features = ["v4"] }
