[package]
name = "framework"
version = "0.1.0"
edition = "2021"
publish = false

[dependencies]
clap = { version = "=4.6.7", features = ["string"] }
crossterm = "=0.29.0"
directories = "=6.0.0"
latex = "*"
ratatui = "=0.30.2"
rusqlite = "=0.41.0"
shlex = "=2.0.1"
tabled = "=0.22.0"
