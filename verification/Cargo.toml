[package]
name = "ratio"
version = "0.1.0"
edition = "2021"
publish = false

[dependencies]
gl = "0.14"
glutin = "0.29"
image = { version = "0.23", default-features = false, features = ["png", "jpeg", "bmp", "tiff", "hdr"] }
