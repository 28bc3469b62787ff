[package]
name = "clawcode_tui"
version = "0.1.0"
edition = "2021"
publish = false

[dependencies]
ratatui = { version = "*", default-features = false }
serde_json = "1"
