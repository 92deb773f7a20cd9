[package]
name = "castiron"
version = "0.1.0"
edition = "2021"
publish = false

[dependencies]
rand = "0.7"
uuid = { version = "0.8", features = ["v4"] }
serde = { version = "1", features = ["derive"] }
serde_json = "1"
chrono = "0.4"
