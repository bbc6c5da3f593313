[package]
name = "rage_front"
version = "0.1.0"
edition = "2021"
publish = false

[dependencies]
blake3 = "*"
anyhow = "*"
log = "*"
env_logger = "*"
ecow = "*"
