[package]
name = "mac_cleaner"
version = "0.2.0"
edition = "2021"
publish = false

[dependencies]
bytesize = "*"
colored = "*"
dialoguer = "*"
jwalk = "*"
libc = "*"
