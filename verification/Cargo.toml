[package]
name = "flat2d"
version = "0.1.0"
edition = "2021"
publish = false

[dependencies]
amethyst_assets = "0.15.3"
amethyst_core = "0.15.3"
amethyst_error = "0.15.3"
derivative = "=1.0.4"
gfx = "=0.17.1"
gfx_core = "=0.8.3"
glsl-layout = "=0.1.1"
log = "=0.4.34"
