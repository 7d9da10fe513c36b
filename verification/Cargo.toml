[package]
name = "game_client"
version = "0.1.0"
edition = "2021"
publish = false

[dependencies]
hexx = "*"
bevy = { version = "0.13", default-features = false }
tokio = { version = "1", features = ["rt-multi-thread", "sync", "macros", "net", "io-util"] }
tokio-stream = "0.1"
tokio-util = { version = "0.7", features = ["codec"] }
futures = "0.3"
bytes = "1"
tracing = "0.1"
tracing-subscriber = { version = "0.3", features = ["env-filter"] }
