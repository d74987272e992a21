[package]
name = "ctr_cipher"
version = "0.1.0"
edition = "2021"
publish = false

[dependencies]
aes = "0.8"
cipher = "0.4"
rand = "*"
