[package]
name = "fokus"
version = "0.1.0"
edition = "2021"
publish = false

[dependencies]
chrono = "0.4"
crossterm = "0.28"
ratatui = "0.29"
dirs-next = "2"
serde = { version = "1", features = ["derive"] }
serde_json = "1"
toml = "0.8"
