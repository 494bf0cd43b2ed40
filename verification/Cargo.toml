[package]
name = "terminal_tomato"
version = "0.1.0"
edition = "2021"
publish = false

[dependencies]
chrono = "0.4"
crossterm = "0.27"
ratatui = "0.26"
rodio = "0.17"
serde = { version = "1", features = ["derive"] }
serde_json = "1"
toml = "0.8"
