[package]
name = "loooper"
version = "0.1.0"
edition = "2021"
publish = false

[dependencies]
color-eyre = "*"
crossterm = { version = "*", features = ["event-stream"] }
futures = "*"
hound = "*"
jack = "*"
ratatui = "*"
rppal = "*"
tokio = { version = "*", features = ["macros", "rt", "sync", "time"] }
