[package]
name = "monlomon"
version = "0.1.0"
edition = "2021"
publish = false

[dependencies]
serde_json = "*"
tui = "0.19"
crossterm = "0.25"
