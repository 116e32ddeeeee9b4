[package]
name = "wasabi"
version = "0.1.0"
edition = "2021"
publish = false

[dependencies]
chrono = "*"
futures-util = "*"
termion = "*"
tokio = { version = "*", features = ["full"] }
tokio-tungstenite = "*"
