[package]
name = "alchemy-cleaner"
version = "0.1.0"
edition = "2021"
publish = false

[dependencies]
anyhow = "1"
chrono = "0.4"
clap = { version = "=4.4.18", features = ["derive"] }
colored = "3"
crossterm = "*"
indicatif = "*"
ratatui = "*"
sysinfo = "0.36"
