[package]
name = "tokio_watch"
version = "0.1.0"
edition = "2021"
publish = false

[dependencies]
notify = "*"
tokio = { version = "*", features = ["fs", "io-util"] }
