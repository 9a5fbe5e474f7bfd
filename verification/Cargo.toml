[package]
name = "arachno_pilot"
version = "0.1.0"
edition = "2021"
publish = false

[dependencies]
anyhow = "*"
axum = "*"
clap = { version = "*", features = ["derive"] }
libc = "*"
serde = { version = "*", features = ["derive"] }
serde_json = "*"
tokio = { version = "*", features = ["rt-multi-thread", "macros", "net", "process", "io-util", "time", "sync"] }
tokio-util = { version = "*", features = ["io"] }
toml = "*"
tower-http = { version = "*", features = ["cors"] }
tracing = "*"
tracing-appender = "*"
tracing-subscriber = { version = "*", features = ["env-filter"] }
