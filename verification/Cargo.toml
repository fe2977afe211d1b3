[package]
name = "nutt"
version = "0.1.0"
edition = "2021"
publish = false

[dependencies]
emailmessage = "*"
env_logger = "0.7"
failure = "0.1"
log = "0.4"
serde = { version = "1", features = ["derive"] }
serde_json = "1"
termion = "1.5"
tui = "0.9"
