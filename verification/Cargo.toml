[package]
name = "eza_options"
version = "0.1.0"
edition = "2021"
publish = false

[dependencies]
dirs = "*"
serde_yaml = "0.9"
term_grid = "*"
