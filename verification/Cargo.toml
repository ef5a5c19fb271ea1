[package]
name = "secret_box"
version = "0.1.0"
edition = "2021"
publish = false

[dependencies]
memsec = "*"
zeroize = "1"
