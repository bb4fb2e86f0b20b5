[package]
name = "cmd_lib"
version = "0.1.0"
edition = "2021"
publish = false

[dependencies]
faccess = "*"
lazy_static = "*"
log = "*"
