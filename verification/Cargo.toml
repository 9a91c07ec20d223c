[package]
name = "cuemate_audio"
version = "0.1.0"
edition = "2021"
publish = false

[dependencies]
cpal = "=0.15.3"
env_logger = "=0.11.11"
futures-util = "=0.3.34"
log = "=0.4.34"
serde = { version = "=1.0.229", features = ["derive"] }
tokio = { version = "=1.54.1", features = ["macros", "rt-multi-thread", "sync", "time"] }
tokio-tungstenite = "=0.21.0"
