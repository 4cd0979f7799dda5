[package]
name = "tracer"
version = "0.1.0"
edition = "2021"
publish = false

[dependencies]
tokio = { version = "1", default-features = false, features = ["sync"] }
async-nats = "0.10"
anyhow = "1"
serde = { version = "1", features = ["derive"] }
