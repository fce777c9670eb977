[package]
name = "rask"
version = "0.1.0"
edition = "2021"

[dependencies]
rusqlite = "0.29"
ratatui = "0.24"
crossterm = "0.27"
