[package]
name = "file_converter"
version = "0.1.0"
edition = "2021"
publish = false

[dependencies]
flate2 = "*"
image = { version = "*", default-features = false, features = ["png", "jpeg", "gif", "webp", "tiff", "bmp"] }
lopdf = "*"
