[package]
name = "rusty_sandbox"
version = "0.1.0"
edition = "2021"
publish = false

[dependencies]
libc = "*"
unix_socket = "*"
