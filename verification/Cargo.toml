[package]
name = "tabdash"
version = "0.1.0"
edition = "2021"
publish = false

[dependencies]
crossterm = "0.26"
ratatui = "0.20"
