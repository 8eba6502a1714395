[package]
name = "file_browser"
version = "0.1.0"
edition = "2021"
publish = false

[dependencies]
chrono = "=0.4.45"
crossterm = "=0.27.0"
ratatui = "=0.26.3"
regex = "=1.13.1"
serde = "=1.0.229"
serde_json = "=1.0.154"
walkdir = "=2.5.0"
which = "=6.0.3"
