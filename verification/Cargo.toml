[package]
name = "relay_core"
version = "0.1.0"
edition = "2021"
publish = false

[dependencies]
serde_json = "*"
uuid = { version = "*", features = ["v4"] }
tokio = { version = "*", features = ["sync", "rt-multi-thread", "net", "time", "macros", "io-util"] }
tokio-tungstenite = "*"
futures-util = "*"
chrono = "*"
