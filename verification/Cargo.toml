[package]
name = "fastant"
version = "0.1.0"
edition = "2021"
publish = false

[dependencies]
coarsetime = "0.1"
web-time = "1"
