[package]
name = "chorus"
version = "0.1.0"
edition = "2021"
publish = false

[dependencies]
futures-util = "0.3"
native-tls = "0.2"
reqwest = { version = "0.11", features = ["json"] }
serde = { version = "1", features = ["derive"] }
serde_json = "1"
tokio = { version = "1", features = ["macros", "rt-multi-thread", "sync", "time", "net"] }
tokio-tungstenite = { version = "0.19", features = ["native-tls"] }
