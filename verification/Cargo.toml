[package]
name = "coop_executor"
version = "0.1.0"
edition = "2021"
publish = false

[dependencies]
mini-redis = "0.4"
tokio = { version = "1", features = ["full"] }
tokio-stream = "0.1"
