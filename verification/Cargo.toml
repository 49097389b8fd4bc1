[package]
name = "image_compressor_rs"
version = "0.1.0"
edition = "2021"
publish = false

[dependencies]
anyhow = "=1.0.104"
clap = { version = "=4.6.7", features = ["derive"] }
image = { version = "=0.25.10", default-features = false, features = ["rayon", "bmp", "dds", "exr", "ff", "gif", "hdr", "ico", "jpeg", "png", "pnm", "qoi", "tga", "tiff", "webp"] }
imgref = "*"
mozjpeg = "=0.10.13"
oxipng = "=10.2.1"
ravif = "=0.11.20"
rgb = "*"
serde_json = "=1.0.151"
walkdir = "=2.5.0"
webp = { version = "=0.3.1", default-features = false }
