[package]
name = "rooney"
version = "0.1.0"
edition = "2021"
publish = false

[dependencies]
chrono = "0.4"
titlecase = "*"
separator = "*"
postgres = { version = "*", features = ["with-chrono-0_4"] }
toml = "*"
log = "0.4"
env_logger = "*"
irc = { version = "*", default-features = false }
tokio = { version = "1", features = ["rt"] }
futures = "0.3"
