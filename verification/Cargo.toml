[package]
name = "spotisync"
version = "0.1.0"
edition = "2021"
publish = false

[dependencies]
anyhow = "1"
axum = "0.7"
dotenv = "0.15"
futures-util = "0.3"
hyper = { version = "0.14", features = ["server", "http1", "tcp"] }
lazy_static = "1"
reqwest = "0.11"
rspotify = "0.13"
serde = { version = "1", features = ["derive"] }
tokio = { version = "1", features = ["full"] }
tokio-stream = { version = "0.1", features = ["io-util"] }
tracing = "0.1"
tracing-subscriber = { version = "0.3", features = ["env-filter"] }
