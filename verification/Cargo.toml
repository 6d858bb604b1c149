[package]
name = "noise_link"
version = "0.1.0"
edition = "2021"
publish = false

[dependencies]
snow = "0.9"
bytes = "1"
anyhow = "1"
futures = "0.3"
tokio = { version = "1", features = ["full"] }
tokio-util = { version = "0.7", features = ["codec"] }
tracing = "0.1"
tracing-subscriber = "0.3"
dashmap = "5"
prost = "0.13"
async-trait = "0.1"
