[package]
name = "lush_rs"
version = "0.1.0"
edition = "2021"
publish = false

[dependencies]
wmidi = "*"
cpal = "*"
midir = "*"
anyhow = "*"
