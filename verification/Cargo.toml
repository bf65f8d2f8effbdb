[package]
name = "tile_world"
version = "0.1.0"
edition = "2021"
publish = false

[dependencies]
enum-map = "*"
lazy_static = "1"
sdl2 = { version = "*", features = ["image"] }
strum = "*"
strum_macros = "*"
