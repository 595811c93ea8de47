[package]
name = "gateway_client"
version = "0.1.0"
edition = "2021"
publish = false

[dependencies]
anyhow = "*"
base64 = "*"
flate2 = "*"
futures-util = "*"
serde_json = "*"
tokio = { version = "*", features = ["macros", "net", "rt", "sync", "time"] }
tokio-tungstenite = "*"
