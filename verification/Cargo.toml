[package]
name = "kxcj9"
version = "0.2.0"
edition = "2021"
publish = false

[dependencies]
embedded-hal = "0.2"
