[package]
name = "tweet_agent"
version = "0.1.0"
edition = "2021"
publish = false

[dependencies]
axum = "=0.8.9"
base64 = "=0.23.1"
dotenv = "=0.15.0"
env_logger = "=0.11.11"
eyre = "=0.6.14"
hmac = "*"
log = "=0.4.34"
percent-encoding = "=2.3.2"
reqwest = { version = "=0.13.5", features = ["json"] }
serde = { version = "=1.0.229", features = ["derive"] }
serde_json = "=1.0.154"
sha1 = "*"
tokio = { version = "=1.54.1", features = ["full"] }
tower-http = { version = "=0.7.1", features = ["cors"] }
