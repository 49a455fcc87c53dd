[package]
name = "version_swap"
version = "0.1.0"
edition = "2021"
publish = false

[dependencies]
clap = { version = "*", features = ["derive"] }
crc32fast = "*"
eyre = "*"
log = "*"
pathdiff = "*"
simplelog = "*"
