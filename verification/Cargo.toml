[package]
name = "cacao"
version = "0.1.0"
edition = "2021"
publish = false

[dependencies]
objc = "0.2"
objc_id = "0.1"
core-graphics = "*"
