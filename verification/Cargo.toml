[package]
name = "harmony"
version = "0.1.0"
edition = "2021"
publish = false

[dependencies]
async-channel = "*"
futures-util = "*"
iso8601-timestamp = "*"
reqwest = { version = "*", default-features = false, features = ["json"] }
serde = { version = "*", features = ["derive"] }
serde_json = "*"
tokio = { version = "*", features = ["rt", "rt-multi-thread", "macros", "time", "net"] }
tokio-tungstenite = "*"
