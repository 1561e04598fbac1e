[package]
name = "image_server"
version = "0.1.0"
edition = "2021"
publish = false

[dependencies]
axum = "0.6"
bytes = "1"
directories = "*"
futures = "0.3"
hyper = { version = "0.14", features = ["full"] }
reqwest = { version = "0.11", default-features = false, features = ["stream"] }
tokio = { version = "1", features = ["full"] }
tracing = "0.1"
tracing-subscriber = "0.3"
