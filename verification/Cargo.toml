[package]
name = "vec2d"
version = "0.1.0"
edition = "2021"
publish = false

[dependencies]
eyre = "0.6"
num-traits = "0.2"
