[package]
name = "warp_terminal"
version = "0.1.0"
edition = "2021"
publish = false

[dependencies]
chrono = "0.4"
crossterm = "*"
serde = { version = "1", features = ["derive"] }
serde_yaml = "*"
dirs = "*"
