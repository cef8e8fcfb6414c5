[package]
name = "screengrab"
version = "0.1.0"
edition = "2021"
publish = false

[dependencies]
image = "*"
pixels = "*"
scrap = "0.5"
winit = "0.30"
