[package]
name = "gitmover"
version = "0.1.0"
edition = "2021"
publish = false

[dependencies]
clap = "4"
dircpy = "*"
env_logger = "*"
homedir = "*"
serde = { version = "1", features = ["derive"] }
serde_json = "1"
uuid = { version = "1", features = ["v4"] }
