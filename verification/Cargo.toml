[package]
name = "spectrum"
version = "0.1.0"
edition = "2021"
publish = false

[dependencies]
anyhow = "1"
async-trait = "0.1"
chrono = "0.4"
crossbeam-queue = "0.3"
dashmap = "5"
fern = "0.6"
futures = "0.3"
futures-util = "0.3"
log = "0.4"
prost = "0.11"
serde = { version = "1", features = ["derive"] }
serde_json = "1"
signal-hook = "0.3"
signal-hook-tokio = { version = "0.3", features = ["futures-v0_3"] }
tokio = { version = "1", features = ["full"] }
tokio-tungstenite = "0.18"
tokio-util = "0.7"
tungstenite = "0.18"
uuid = { version = "1", features = ["v4"] }
