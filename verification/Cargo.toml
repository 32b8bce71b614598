[package]
name = "celestial-service"
version = "0.1.0"
edition = "2021"
publish = false

[dependencies]
anyhow = "1"
kode-bridge = "*"
libc = "0.2"
tokio = { version = "1", features = ["macros", "rt", "signal", "sync", "time"] }
tracing = "0.1"
tracing-subscriber = "0.3"
windows-service = "*"
