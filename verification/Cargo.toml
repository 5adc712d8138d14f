[package]
name = "cubism"
version = "0.1.0"
edition = "2021"
publish = false

[dependencies]
libc = "=0.2.191"
gfx = "0.18"
nalgebra = "*"
