[package]
name = "staged_io"
version = "0.1.0"
edition = "2021"
publish = false

[dependencies]
bytes = "1"
monoio = "*"
