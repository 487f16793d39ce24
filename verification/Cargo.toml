[package]
name = "br"
version = "0.1.0"
edition = "2021"
publish = false

[dependencies]
chrono = "0.4"
crossterm = "0.27"
dirs = "5"
feed-rs = "2"
open = "5"
ratatui = "0.26"
reqwest = "0.12"
serde = { version = "1", features = ["derive"] }
serde_json = "1"
sha2 = "0.10"
tokio = { version = "1", features = ["full"] }
toml = "0.8"
