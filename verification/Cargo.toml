[package]
name = "mandala"
version = "0.1.0"
edition = "2021"
publish = false

[dependencies]
quicksilver = { version = "=0.3.22", default-features = false, features = ["lyon", "fonts"] }
lyon = { version = "=0.14.2", features = ["svg"] }
svg = "=0.18.0"
nannou_osc = "=0.20.0"
log = "=0.4.34"
