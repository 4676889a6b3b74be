[package]
name = "battery"
version = "0.1.0"
edition = "2021"
publish = false

[dependencies]
glam = "=0.30.10"
rustc_apfloat = "*"
gl = "=0.14.0"
image = "=0.25.10"
sdl2 = "=0.38.0"
