[package]
name = "gistui"
version = "0.1.0"
edition = "2021"
publish = false

[dependencies]
ratatui = "0.29"
similar = "2"
crossterm = "0.28"
dirs = "6"
