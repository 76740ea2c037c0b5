[package]
name = "telegram_drive"
version = "0.1.0"
edition = "2021"
publish = false

[dependencies]
base64 = "=0.22.1"
chrono = "=0.4.45"
axum = "=0.8.9"
tokio = { version = "=1.54.1", features = ["full"] }
tower-http = { version = "=0.6.11", features = ["cors", "compression-gzip", "fs"] }
serde = { version = "=1.0.229", features = ["derive"] }
log = "=0.4.35"
env_logger = "=0.11.11"
actix-rt = "=2.15.0"
grammers-client = "=0.11.0"
grammers-mtsender = { version = "=0.11.0", features = ["proxy"] }
grammers-session = "=0.11.0"
grammers-tl-types = "=0.11.0"
