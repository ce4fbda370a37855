[package]
name = "envcrypt"
version = "0.1.0"
edition = "2021"
publish = false

[dependencies]
aes = "0.8"
cbc = { version = "0.1", features = ["alloc", "block-padding", "std"] }
hex = "0.4"
hmac = "0.12"
rand = "0.8"
sha2 = "0.10"
