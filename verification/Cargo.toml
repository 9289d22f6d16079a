[package]
name = "jlv"
version = "0.1.0"
edition = "2021"
publish = false

[dependencies]
serde_json = "1"
clap = { version = "4", features = ["derive"] }
color-eyre = "0.6"
crossterm = "0.28"
ratatui = "0.29"
