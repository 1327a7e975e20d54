[package]
name = "gfx_tex"
version = "0.1.0"
edition = "2021"
publish = false

[dependencies]
gfx_core = "=0.1.2"
gfx_gl = "=0.6.1"
