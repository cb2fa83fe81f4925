[package]
name = "secp256r1"
version = "0.1.0"
edition = "2021"
publish = false

[dependencies]

[dev-dependencies]
p256 = "0.13"
