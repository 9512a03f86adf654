[package]
name = "gegen"
version = "0.1.0"
edition = "2021"
publish = false

[dependencies]
chrono = { version = "0.4", features = ["serde"] }
color-eyre = "0.6"
crossbeam = "0.8"
crossterm = "*"
dashmap = "6"
dirs = "*"
ratatui = "*"
reqwest = { version = "0.12", features = ["blocking", "json"] }
serde = { version = "1", features = ["derive"] }
thiserror = "2"
throbber-widgets-tui = "*"
tracing = "0.1"
tracing-appender = "0.2"
tracing-subscriber = { version = "0.3", features = ["env-filter", "json"] }
