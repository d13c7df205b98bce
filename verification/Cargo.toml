[package]
name = "volt"
version = "0.1.0"
edition = "2021"
publish = false

[dependencies]
anyhow = "1"
gl = "0.14"
glutin = "0.31"
glutin-winit = "0.4"
raw-window-handle = "0.5"
skia-safe = { version = "0.78", features = ["gl"] }
taffy = "0.4"
winit = { version = "0.29", features = ["rwh_05"] }
