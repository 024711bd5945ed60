[package]
name = "simple_nes_rs"
version = "0.1.0"
edition = "2021"
publish = false

[dependencies]
sfml = "0.14"
time = "0.1"
