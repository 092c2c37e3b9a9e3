[package]
name = "maat_graphics"
version = "0.1.0"
edition = "2021"
publish = false

[dependencies]
image = "*"
