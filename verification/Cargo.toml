[package]
name = "retro_frontend"
version = "0.1.0"
edition = "2021"
publish = false

[dependencies]
libc = "=0.2.190"
bevy_pixels = "=0.17.0"

[dependencies.bevy]
version = "=0.19.1"
default-features = false
features = ["bevy_winit", "x11"]
