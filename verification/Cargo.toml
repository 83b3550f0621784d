[package]
name = "multi_counter"
version = "0.1.0"
edition = "2021"
publish = false

[dependencies]
ratatui = "=0.28.1"
color-eyre = "=0.6.5"
