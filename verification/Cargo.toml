[package]
name = "gamekit"
version = "0.1.0"
edition = "2021"
publish = false

[dependencies]
png = "0.17"
log = "0.4"
simplelog = "0.12"
sdl2 = "0.35"
gl = "0.14"
