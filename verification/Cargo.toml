[package]
name = "tftpeer"
version = "0.1.0"
edition = "2021"
publish = false

[dependencies]
async-std = "*"
byteorder = "1"
clap = { version = "*", features = ["derive"] }
pretty-bytes = "*"
