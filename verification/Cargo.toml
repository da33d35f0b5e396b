[package]
name = "loglens"
version = "0.1.0"
edition = "2021"
publish = false

[dependencies]
anyhow = "1"
chrono = "0.4"
clap = { version = "4", features = ["derive"] }
ollama-rs = { version = "*", features = ["stream"] }
tokio = { version = "1", features = ["full"] }
tokio-stream = "0.1"
