[package]
name = "raytracer"
version = "0.1.0"
edition = "2021"
publish = false

[dependencies]
clap = "2"
indicatif = "0.15"
instant = "0.1"
log = "0.4"
rand = "0.7"
rayon = "1"
sdl2 = "0.34"
serde = { version = "1", features = ["derive"] }
simplelog = "0.8"
toml = "0.5"
