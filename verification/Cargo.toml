[package]
name = "project_command"
version = "0.1.0"
edition = "2021"
publish = false

[dependencies]
ulid-generator-rs = "*"
chrono = "*"
uuid = { version = "*", features = ["v4"] }
serde = { version = "*", features = ["derive"] }
serde_json = "*"
