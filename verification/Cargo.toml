[package]
name = "service_supervisor"
version = "0.1.0"
edition = "2021"
publish = false

[dependencies]
env_logger = "*"
log = "0.4"
reqwest = "*"
serde = { version = "1", features = ["derive"] }
tokio = { version = "1", features = ["full"] }
