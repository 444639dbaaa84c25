[package]
name = "moterm"
version = "0.1.0"
edition = "2021"
publish = false

[dependencies]
unicode-width = "*"
vte = "*"
libc = "*"
polling = "*"
