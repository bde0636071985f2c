[package]
name = "photo_tidier"
version = "0.1.0"
edition = "2021"
publish = false

[dependencies]
kamadak-exif = "*"
structopt = "*"
