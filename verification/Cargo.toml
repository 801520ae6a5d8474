[package]
name = "gateway"
version = "0.1.0"
edition = "2021"
publish = false

[dependencies]
chrono = "0.4"
actix = "0.13"
actix-service = "2"
actix-web = "4"
actix-web-actors = "4"
env_logger = "0.9"
futures-util = "0.3"
serde = { version = "1.0", features = ["derive"] }
serde_json = "1.0"
