[package]
name = "deepgemini"
version = "0.1.0"
edition = "2021"
publish = false

[dependencies]
axum = "=0.8.9"
chrono = { version = "=0.4.45", features = ["serde"] }
futures = "=0.3.34"
google-generative-ai-rs = "=0.3.4"
reqwest = { version = "=0.12.28", default-features = false, features = ["rustls-tls", "json", "stream"] }
serde = { version = "=1.0.229", features = ["derive"] }
serde_json = "=1.0.151"
tokio = { version = "=1.53.2", features = ["full"] }
tokio-stream = "=0.1.19"
