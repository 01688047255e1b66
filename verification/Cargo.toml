[package]
name = "dwxdy"
version = "0.1.0"
edition = "2021"
publish = false

[dependencies]
chrono = "0.4"
crossterm = "*"
ratatui = "*"
rodio = "*"
terminal_size = "*"
walkdir = "2"
