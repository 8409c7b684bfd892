[package]
name = "block_sync"
version = "0.1.0"
edition = "2021"
publish = false

[dependencies]
anyhow = "=1.0.104"
bytes = "=1.12.1"
futures = "=0.3.34"
log = "=0.4.34"
tentacle = { version = "=0.4.2", features = ["unstable"] }
tokio = { version = "=1.54.1", features = ["sync", "time"] }
tokio-util = { version = "=0.7.8", features = ["codec"] }
