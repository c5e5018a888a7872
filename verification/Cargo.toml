[package]
name = "spine"
version = "0.1.0"
edition = "2021"
publish = false

[dependencies]
spine-sys = "*"
