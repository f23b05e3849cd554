[package]
name = "ender_script"
version = "0.1.0"
edition = "2021"
publish = false

[dependencies]
ansi_term = "0.12"
clap = { version = "3", features = ["cargo"] }
dialoguer = "0.10"
json = "0.12"
