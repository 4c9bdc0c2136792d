[package]
name = "bigmodel"
version = "0.1.0"
edition = "2021"
publish = false

[dependencies]
serde = { version = "1", features = ["derive"] }
serde_json = "1"
base64 = "0.22"
futures = "0.3"
bytes = "1"
async-stream = "0.3"
pin-project = "1"
tokio = { version = "1", features = ["net"] }
tokio-tungstenite = "0.24"
reqwest = { version = "0.12", default-features = false, features = ["stream"] }
