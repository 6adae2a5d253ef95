[package]
name = "a_prototype"
version = "0.1.0"
edition = "2021"
publish = false

[dependencies]
raylib = "*"
