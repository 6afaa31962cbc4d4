[package]
name = "veracruz_nitro"
version = "0.1.0"
edition = "2021"
publish = false

[dependencies]
base64 = "0.13"
rand = "0.8"
ring = "0.17"
bincode = "1"
lazy_static = "1"
