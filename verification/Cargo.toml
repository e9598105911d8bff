[package]
name = "chunk_codec"
version = "0.1.0"
edition = "2021"
publish = false

[dependencies]
flate2 = { version = "=1.1.10", default-features = false, features = ["zlib-rs"] }
lzzzz = "=1.1.0"
