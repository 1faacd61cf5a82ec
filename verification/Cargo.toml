[package]
name = "voice_gateway"
version = "0.1.0"
edition = "2021"
publish = false

[dependencies]
axum = { version = "*", features = ["ws"] }
axum-server = "*"
chrono = "*"
crc32fast = "*"
env_logger = "*"
futures = "*"
futures-util = "*"
log = "*"
qdrant-client = "*"
reqwest = { version = "*", default-features = false, features = ["json", "multipart", "rustls-tls"] }
rust-bert = "*"
rustls = "*"
serde = { version = "*", features = ["derive"] }
serde_json = "*"
tokio = { version = "*", features = ["full"] }
tokio-tungstenite = "*"
url = "*"
uuid = { version = "*", features = ["v4"] }
