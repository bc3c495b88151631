[package]
name = "zerodrop"
version = "0.1.0"
edition = "2021"
publish = false

[dependencies]
consistenttime = "*"
