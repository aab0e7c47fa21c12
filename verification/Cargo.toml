[package]
name = "cachy"
version = "0.1.0"
edition = "2021"
publish = false

[dependencies]
bus = "*"
futures = "0.1"
