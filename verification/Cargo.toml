[package]
name = "libsensors_rs"
version = "0.1.0"
edition = "2021"
publish = false

[dependencies]
libloading = "*"
log = "0.4"
