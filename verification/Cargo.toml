[package]
name = "jetkvm_control"
version = "0.1.0"
edition = "2021"
publish = false

[dependencies]
anyhow = "=1.0.104"
base64 = "=0.23.1"
futures-util = "=0.3.34"
reqwest = { version = "=0.13.5", default-features = false, features = ["json"] }
serde = { version = "=1.0.229", features = ["derive"] }
serde_json = "=1.0.151"
termion = "=4.0.6"
tokio = { version = "=1.53.2", features = ["full"] }
tokio-tungstenite = "=0.30.0"
toml = "=1.1.7"
webrtc = "=0.11.0"
