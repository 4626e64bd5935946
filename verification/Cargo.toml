[package]
name = "orbit_camera"
version = "0.1.0"
edition = "2021"
publish = false

[dependencies]
bevy = { version = "0.17", default-features = false, features = ["std", "bevy_pbr", "bevy_window", "bevy_winit", "x11"] }
rand = "0.8"
wasm-bindgen = "0.2"
