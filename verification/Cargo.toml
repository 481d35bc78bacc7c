[package]
name = "zinc"
version = "0.0.1"
edition = "2021"
publish = false

[dependencies]
colored = "*"
