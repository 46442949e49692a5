[package]
name = "rtsp"
version = "0.1.0"
edition = "2021"
publish = false

[dependencies]
ascii = "1"
bytes = "0.4"
futures = "0.1"
tokio-executor = "0.1"
tokio-tcp = "0.1"
