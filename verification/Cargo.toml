[package]
name = "sfml"
version = "0.1.0"
edition = "2021"
publish = false

[dependencies]
link-cplusplus = "1.0"
