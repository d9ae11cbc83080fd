[package]
name = "gfx_graphics"
version = "0.1.0"
edition = "2021"
publish = false

[dependencies]
gfx = "*"
gfx_device_gl = "*"
piston2d-graphics = "*"
