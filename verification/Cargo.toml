[package]
name = "wtimer"
version = "0.1.0"
edition = "2021"
publish = false

[dependencies]
chrono = "0.4"
clap = "*"
dialog = "*"
serde = { version = "1", features = ["derive"] }
serde_json = "1"
shellexpand = "*"
