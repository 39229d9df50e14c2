[package]
name = "identicon_rs"
version = "0.1.0"
edition = "2021"
publish = false

[dependencies]
hmac-sha256 = "*"
image = { version = "*", default-features = false, features = ["png"] }
