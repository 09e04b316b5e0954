[package]
name = "desktop_bridge"
version = "0.1.0"
edition = "2021"
publish = false

[dependencies]
serde_json = "*"
futures-channel = "*"
log = "*"
tokio = { version = "*", features = ["rt-multi-thread"] }
