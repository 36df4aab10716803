[package]
name = "webp_encoder"
version = "0.1.0"
edition = "2021"
publish = false

[dependencies]
libwebp = "*"
