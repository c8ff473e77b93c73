[package]
name = "tricore_probe"
version = "0.1.0"
edition = "2021"
publish = false

[dependencies]
anyhow = "1"
ciborium = "0.2"
clap = { version = "4", features = ["derive"] }
colored = "2"
env_logger = "0.11"
log = "0.4"
serde = { version = "1", features = ["derive"] }
