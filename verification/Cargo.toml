[package]
name = "transmission_tui"
version = "0.1.0"
edition = "2021"
publish = false

[dependencies]
color-eyre = "*"
crossterm = { version = "*", features = ["event-stream"] }
futures = "*"
human-number = "*"
ratatui = "*"
tokio = { version = "*", features = ["macros", "rt-multi-thread", "sync"] }
tokio-util = "*"
transmission-rpc = "*"
