[package]
name = "uring_fixed"
version = "0.1.0"
edition = "2021"
publish = false

[dependencies]
io-uring = "0.6"
