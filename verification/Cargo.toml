[package]
name = "webhook"
version = "0.1.0"
edition = "2021"
publish = false

[dependencies]
actix-web = "4"
base64 = "0.22"
chrono = "0.4"
env_logger = "0.11"
log = "0.4"
openssl = "0.10"
serde = { version = "1", features = ["derive"] }

[dev-dependencies]
hex = "0.4"
