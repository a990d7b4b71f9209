[package]
name = "estate_control"
version = "0.1.0"
edition = "2021"
publish = false

[dependencies]
sha2 = "0.10"
serde = { version = "1", features = ["derive"] }
serde_json = "1"
safetensors = "0.4"
anyhow = "1"
clap = { version = "4", features = ["derive"] }
