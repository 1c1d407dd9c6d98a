[package]
name = "preprocess"
version = "0.1.0"
edition = "2021"
publish = false

[dependencies]
brotli = "*"
crc32fast = "*"
hex = "*"
walkdir = "*"
