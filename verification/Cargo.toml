[package]
name = "dirpanes"
version = "0.1.0"
edition = "2021"
publish = false

[dependencies]
ratatui = "=0.26.3"
crossterm = "=0.27.0"
