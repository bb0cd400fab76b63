[package]
name = "txauth"
version = "0.1.0"
edition = "2021"
publish = false

[dependencies]
ring = "*"
rand = "0.8"
