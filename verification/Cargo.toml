[package]
name = "ocular"
version = "0.1.0"
edition = "2021"
publish = false

[dependencies]
rand = "=0.8.8"
bmp = "=0.5.0"
obj-rs = "*"
