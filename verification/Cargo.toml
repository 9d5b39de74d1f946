[package]
name = "rusty_player"
version = "0.1.0"
edition = "2021"
publish = false

[dependencies]
serde_json = "1.0"
crossterm = "0.28"
