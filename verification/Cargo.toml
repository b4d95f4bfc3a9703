[package]
name = "redis_connector"
version = "0.1.0"
edition = "2021"
publish = false

[dependencies]
eyre = "=0.6.14"
redis = { version = "=0.27.6", features = ["tokio-comp"] }
tokio = { version = "=1.54.1", features = ["time"] }
