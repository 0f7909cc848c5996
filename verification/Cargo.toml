[package]
name = "connect_proxy"
version = "0.1.0"
edition = "2021"
publish = false

[dependencies]
httparse = "1"
async-std = "1"
