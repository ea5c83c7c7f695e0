[package]
name = "socks5_listener"
version = "0.1.0"
edition = "2021"
publish = false

[dependencies]
anyhow = "1"
tokio = { version = "1", default-features = false, features = ["net", "io-util", "rt", "time"] }
tokio-stream = { version = "0.1", default-features = false }
