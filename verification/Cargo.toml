[package]
name = "snake_game"
version = "0.1.0"
edition = "2021"

[dependencies]
crossterm = "0.29"
rand = "0.9"
