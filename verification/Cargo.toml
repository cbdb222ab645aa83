[package]
name = "communityvi"
version = "0.1.0"
edition = "2021"
publish = false

[dependencies]
http = "=1.5.0"
base64 = "=0.22.1"
chrono = "=0.4.45"
serde = { version = "=1.0.229", features = ["derive"] }
serde_json = "=1.0.154"
toml = "=0.8.23"
clap = { version = "=4.6.7", features = ["derive"] }
tokio = { version = "=1.54.1", features = ["full"] }
tokio-tungstenite = "=0.24.0"
futures-util = { version = "=0.3.34", features = ["sink"] }
parking_lot = "=0.12.5"
anyhow = "=1.0.104"
thiserror = "=1.0.69"
log = "=0.4.35"
humantime-serde = "1"
