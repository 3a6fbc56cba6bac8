[package]
name = "runner"
version = "0.1.0"
edition = "2021"
publish = false

[dependencies]
clap = "2"
console = "*"
env_logger = "*"
failure = "0.1"
serde = { version = "1", features = ["derive"] }
serde_json = "1"
spurs = "*"
spurs-util = "*"
