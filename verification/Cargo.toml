[package]
name = "piv_agreement"
version = "0.1.0"
edition = "2021"
publish = false

[dependencies]
hex = "*"
anyhow = "*"
log = "*"
env_logger = "*"
yubikey = "*"
