[package]
name = "mesh_signal"
version = "0.1.0"
edition = "2021"
publish = false

[dependencies]
anyhow = "1"
async-trait = "0.1"
clap = { version = "4", features = ["derive"] }
ctrlc = "3"
dashmap = "=6.2.1"
env_logger = "0.11"
futures-util = "0.3"
log = "0.4"
rand = "=0.9.5"
rtc = "0.20"
serde = { version = "1", features = ["derive"] }
serde_json = "1"
tokio = { version = "1", features = ["full"] }
tokio-tungstenite = "=0.30.0"
uuid = { version = "=1.29.0", features = ["v4", "serde"] }
webrtc = "0.20"
