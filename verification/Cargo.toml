[package]
name = "kundli_rs"
version = "0.1.0"
edition = "2021"
publish = false

[dependencies]
swiss-eph = "*"
