[package]
name = "deimos"
version = "0.1.0"
edition = "2021"
publish = false

[dependencies]
base64 = "0.22"
zeroize = "1"
rand = "0.8"
chrono = { version = "0.4", features = ["serde"] }
dashmap = { version = "6", features = ["serde"] }
serde = { version = "1", features = ["derive"] }
serde_json = "1"
toml = "0.8"
tokio = { version = "1", features = ["full"] }
bollard = "0.17"
igd-next = { version = "0.15", features = ["aio_tokio"] }
local-ip-address = "0.6"
tracing = "0.1"
tracing-subscriber = "0.3"
log = "0.4"
thiserror = "1"
futures = "0.3"
tokio-util = "0.7"
tokio-stream = { version = "0.1", features = ["sync"] }
clap = { version = "4", features = ["derive"] }
