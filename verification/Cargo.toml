[package]
name = "herdr-sidebar"
version = "0.1.0"
edition = "2021"
publish = false

[dependencies]
serde_json = "1"
unicode-width = "0.2"
ratatui = "0.29"
crossterm = "0.28"
ignore = "0.4"
