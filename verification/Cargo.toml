[package]
name = "ts3_status"
version = "0.1.0"
edition = "2021"
publish = false

[dependencies]
ts3-query = "*"
serde = { version = "1", features = ["derive"] }
actix-web = "*"
log = "0.4"
pretty_env_logger = "*"
