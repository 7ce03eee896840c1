[package]
name = "hkdf_sha512"
version = "0.1.0"
edition = "2021"
publish = false

[dependencies]
rust-crypto = "*"

[dev-dependencies]
hmac = "*"
sha2 = "*"
