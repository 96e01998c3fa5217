[package]
name = "drop_viewer"
version = "0.1.0"
edition = "2021"

[dependencies]
image = "*"
winit = "0.30"
pixels = "*"
