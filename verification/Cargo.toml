[package]
name = "playqueue"
version = "0.1.0"
edition = "2021"
publish = false

[dependencies]
rand = "0.8"
anyhow = "1"
dashmap = "5"
dotenv = "0.15"
futures = "0.3"
hyper = { version = "0.14", features = ["client", "http1", "http2", "tcp"] }
serde_json = "1"
tokio = { version = "1", features = ["rt-multi-thread", "macros"] }
tracing = "0.1"
tracing-subscriber = "0.3"
twilight-cache-inmemory = "0.15"
twilight-gateway = "0.15"
twilight-http = "0.15"
twilight-lavalink = "0.15"
twilight-model = "0.15"
twilight-util = { version = "0.15", features = ["builder"] }
