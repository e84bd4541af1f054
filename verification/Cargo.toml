[package]
name = "bottomless_pit"
version = "0.1.0"
edition = "2021"
publish = false

[dependencies]
winit = "0.30"
glam = "0.29"
