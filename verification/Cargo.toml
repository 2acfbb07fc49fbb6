[package]
name = "skylode-tui"
version = "0.2.0"
edition = "2021"
publish = false

[dependencies]
ratatui = "*"
serde = { version = "1", features = ["derive"] }
color-eyre = "0.6"
