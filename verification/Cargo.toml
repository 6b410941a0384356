[package]
name = "joblog"
version = "0.1.0"
edition = "2021"
publish = false

[dependencies]
uuid = { version = "*", features = ["v4"] }
actix-web = "*"
actix-cors = "*"
actix-rt = "*"
juniper = "*"
env_logger = "*"
serde = { version = "*", features = ["derive"] }
