[package]
name = "terge"
version = "0.1.0"
edition = "2021"
publish = false

[dependencies]
crossterm = "*"
log = "*"
pretty_env_logger = "*"
rand = "*"
