[package]
name = "extrasafe"
version = "0.1.0"
edition = "2021"
publish = false

[dependencies]
seccompiler = "*"
landlock = "*"
libc = "*"

[dev-dependencies]
syscalls = "*"
