[package]
name = "media_import"
version = "0.1.0"
edition = "2021"
publish = false

[dependencies]
chrono = "0.4"
kamadak-exif = "0.5"
sysinfo = "*"
