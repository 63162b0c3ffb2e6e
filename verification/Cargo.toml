[package]
name = "openai_realtime_proxy"
version = "0.1.0"
edition = "2021"
publish = false

[dependencies]
axum = { version = "*", features = ["ws"] }
futures = "*"
http = "*"
tokio = { version = "*", features = ["macros", "net", "rt"] }
tokio-tungstenite = "*"
url = "*"
