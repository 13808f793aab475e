[package]
name = "watchdog"
version = "0.1.0"
edition = "2021"
publish = false

[dependencies]
clap = { version = "*", features = ["derive"] }
ignore = "*"
notify = "*"
serde = { version = "*", features = ["derive"] }
toml = "*"
