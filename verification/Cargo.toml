[package]
name = "kiwi"
version = "0.1.0"
edition = "2021"
publish = false

[dependencies]
anyhow = "1"
arc-swap = "1"
base64 = "0.22"
futures-util = "0.3"
image = { version = "0.25", default-features = false, features = ["png"] }
opencv = "*"
serde = { version = "1", features = ["derive"] }
serde_json = "1"
tokio = { version = "1", features = ["macros", "net", "rt-multi-thread", "sync"] }
tokio-tungstenite = "*"
tokio-util = "0.7"
