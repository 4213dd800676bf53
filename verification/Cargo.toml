[package]
name = "console_logger"
version = "0.1.0"
edition = "2021"
publish = false

[dependencies]
log = { version = "0.4", features = ["std"] }
term = "0.7"
