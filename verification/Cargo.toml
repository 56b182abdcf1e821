[package]
name = "planet_game"
version = "0.1.0"
edition = "2021"
publish = false

[dependencies]
rand = "=0.8.8"
tetra = { version = "=0.8.0", default-features = false, features = ["texture_png"] }
