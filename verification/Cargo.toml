[package]
name = "caesiumclt"
version = "0.1.0"
edition = "2021"
publish = false

[dependencies]
libcaesium = "*"
infer = "*"
imagesize = "*"
kamadak-exif = "*"
walkdir = "*"
rayon = "*"
indicatif = "*"
clap = { version = "*", features = ["derive"] }
colored = "*"
bytesize = "*"
