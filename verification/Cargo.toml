[package]
name = "draw_guess"
version = "0.1.0"
edition = "2021"
publish = false

[dependencies]
find_folder = "*"
gfx_device_gl = "*"
image = { version = "*", default-features = false }
piston_window = "*"
rand = "0.8"
