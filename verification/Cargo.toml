[package]
name = "server_console"
version = "0.1.0"
edition = "2021"
publish = false

[dependencies]
regex = "1"
ratatui = "0.29"
crossterm = { version = "0.28", features = ["event-stream"] }
tokio = { version = "1", features = ["macros", "rt-multi-thread", "time"] }
futures = "0.3"
reqwest = { version = "0.12", default-features = false }
color-eyre = "0.6"
serde = { version = "1", features = ["derive"] }
toml = "0.8"
