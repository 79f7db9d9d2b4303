[package]
name = "cli_vision"
version = "0.1.0"
edition = "2021"
publish = false

[dependencies]
base64 = "*"
chrono = "*"
clap = { version = "*", features = ["derive"] }
crossterm = "*"
font8x8 = "*"
image = { version = "*", default-features = false, features = ["png"] }
portable-pty = "*"
serde = { version = "*", features = ["derive"] }
serde_json = "*"
