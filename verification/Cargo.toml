[package]
name = "annepro2"
version = "0.1.0"
edition = "2021"
publish = false

[dependencies]
hidapi = "*"
pretty-hex = "*"
