[package]
name = "pollcompat"
version = "0.1.0"
edition = "2021"
publish = false

[dependencies]
tokio-io = "=0.2.0-alpha.6"
tungstenite = "*"
