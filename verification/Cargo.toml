[package]
name = "taskwarrior-tui"
version = "0.1.0"
edition = "2021"
publish = false

[dependencies]
anyhow = "1"
better-panic = "*"
clap = "4"
crossterm = "*"
dirs = "*"
log = "0.4"
log4rs = "1"
path-clean = "1"
ratatui = "*"
serde = { version = "1", features = ["derive"] }
toml = "*"
