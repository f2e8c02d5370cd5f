[package]
name = "linutil_state"
version = "0.1.0"
edition = "2021"
publish = false

[dependencies]
crossterm = "0.28"
ego-tree = "0.9"
ratatui = "0.29"
temp-dir = "0.1"
