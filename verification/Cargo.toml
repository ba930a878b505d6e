[package]
name = "lokai"
version = "0.1.0"
edition = "2021"
publish = false

[dependencies]
textwrap = "*"
sqlx = { version = "*", default-features = false, features = ["runtime-tokio", "sqlite"] }
tokio = { version = "*", features = ["rt-multi-thread", "sync", "time", "macros"] }
crossterm = { version = "*", features = ["event-stream"] }
ratatui = "*"
tui-textarea = "*"
serde = { version = "*", features = ["derive"] }
serde_json = "*"
reqwest = { version = "*", default-features = false, features = ["json", "stream"] }
chrono = "*"
clap = { version = "*", features = ["derive"] }
dirs = "*"
futures = "*"
