[package]
name = "chiprs"
version = "0.1.0"
edition = "2021"
publish = false

[dependencies]
rand = "0.8"
sdl2 = "0.35"
minifb = "0.19"
rodio = { version = "0.14", default-features = false }
clap = "2"
