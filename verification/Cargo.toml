[package]
name = "rust_tui_coder"
version = "0.1.0"
edition = "2021"
publish = false

[dependencies]
chrono = "0.4"
crossterm = "0.27"
futures-util = "0.3"
html2text = "0.6"
once_cell = "1"
ratatui = "0.26"
regex = "1"
reqwest = { version = "0.11", features = ["blocking", "json", "stream"] }
serde = { version = "1", features = ["derive"] }
serde_json = "1"
syntect = "5"
tokio = { version = "1", features = ["full"] }
toml = "0.8"
urlencoding = "2"
