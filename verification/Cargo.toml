[package]
name = "decryptor"
version = "0.1.0"
edition = "2021"
publish = false

[dependencies]
hex = "0.4"
openssl = "0.10"
