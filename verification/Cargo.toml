[package]
name = "see"
version = "0.1.0"
edition = "2021"
publish = false

[dependencies]
percent-encoding = "*"
flate2 = "*"
base64 = "*"
yaml-rust = "*"
chrono = "*"
