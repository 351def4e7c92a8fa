[package]
name = "sendra_tui"
version = "0.1.0"
edition = "2021"
publish = false

[dependencies]
serde_json = "1"
serde_yaml = "0.9"
ratatui = { version = "*", default-features = false }
