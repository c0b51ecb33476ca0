[package]
name = "tui_kit"
version = "0.1.0"
edition = "2021"
publish = false

[dependencies]
crossterm = "*"
ratatui = "*"
unicode-width = "*"
serde = { version = "1", features = ["derive"] }
serde_json = "1"
directories = "*"
thiserror = "*"
