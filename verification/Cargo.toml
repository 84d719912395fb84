[package]
name = "nice_gfx"
version = "0.1.0"
edition = "2021"
publish = false

[dependencies]
gfx-hal = "0.2"
gfx-backend-vulkan = "0.2"
winit = "0.19"
arrayvec = "=0.4.12"
log = "=0.4.34"
simple_logger = "=1.16.0"
