[package]
name = "media_inspector"
version = "0.1.0"
edition = "2021"
publish = false

[dependencies]
anyhow = "1"
crossterm = "0.27"
ratatui = "0.24"
serde = { version = "1", features = ["derive"] }
tui-input = "0.8"
