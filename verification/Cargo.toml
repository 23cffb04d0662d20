[package]
name = "harmonizers"
version = "0.1.0"
edition = "2021"
publish = false

[dependencies]
libremarkable = "0.6"
once_cell = "1"
env_logger = "0.10"
downcast-rs = "1"
