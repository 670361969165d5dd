[package]
name = "shell"
version = "0.1.0"
edition = "2021"
publish = false

[dependencies]
term = "0.2"
libc = "0.2"
kernel32-sys = "0.2"
winapi = "0.2"
