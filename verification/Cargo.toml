[package]
name = "geobot"
version = "0.1.0"
edition = "2021"
publish = false

[dependencies]
anyhow = "1"
config = "0.13"
matrix-sdk = { version = "0.6", default-features = false }
tokio = { version = "1", features = ["macros", "rt-multi-thread", "time"] }
tracing-subscriber = "0.3"
