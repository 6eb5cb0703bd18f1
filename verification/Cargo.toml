[package]
name = "numeral_systems"
version = "0.1.0"
edition = "2021"
publish = false

[dependencies]
chinese-number = "*"
ecow = "*"
