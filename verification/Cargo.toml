[package]
name = "media_session"
version = "0.1.0"
edition = "2021"
publish = false

[dependencies]
axum = "=0.6.20"
serde = { version = "=1.0.229", features = ["derive"] }
str0m = "=0.24.1"
systemstat = "=0.2.7"
tokio = { version = "=1.54.1", features = ["full"] }
tracing = "=0.1.44"
tracing-subscriber = "=0.3.23"
vpx-encode = "=0.6.2"
webrtc = "0.11"
