[package]
name = "rust_pong"
version = "0.1.0"
edition = "2021"
publish = false

[dependencies]
tetra = { version = "=0.9.1", default-features = false, features = ["font_ttf", "texture_png"] }
