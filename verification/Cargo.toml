[package]
name = "swappy"
version = "0.1.0"
edition = "2021"
publish = false

[dependencies]
dirs = "*"
rust-ini = "*"
gtk = "*"
die = "*"
pretty_env_logger = "*"
