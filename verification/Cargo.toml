[package]
name = "tile_engine"
version = "0.1.0"
edition = "2021"
publish = false

[dependencies]
rustc-hash = "*"
sdl2 = { version = "*", features = ["image"] }
