[package]
name = "utf8_headers"
version = "0.1.0"
edition = "2021"
publish = false

[dependencies]
http = "0.2"
