[package]
name = "ws_upgrade"
version = "0.1.0"
edition = "2021"
publish = false

[dependencies]
tungstenite = { version = "=0.30.0", features = ["url"] }
url = "=2.5.8"
