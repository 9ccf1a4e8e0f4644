[package]
name = "gravity"
version = "0.1.0"
edition = "2021"
publish = false

[dependencies]
conrod_core = "=0.76.1"
conrod_glium = "=0.76.1"
conrod_winit = "=0.76.1"
find_folder = "=0.3.0"
glium = "=0.28.0"
winit = "=0.23.0"
