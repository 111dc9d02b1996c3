[package]
name = "st_supervisor"
version = "0.1.0"
edition = "2021"
publish = false

[dependencies]
killport = "*"
reqwest = { version = "*", default-features = false }
tokio = { version = "*", default-features = false, features = ["rt", "time", "macros"] }
log = "*"
env_logger = "*"
