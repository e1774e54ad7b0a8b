[package]
name = "duende"
version = "0.1.0"
edition = "2021"
publish = false

[dependencies]
fnv = "1"
bumpalo = { version = "3", features = ["collections"] }
nalgebra = "*"
