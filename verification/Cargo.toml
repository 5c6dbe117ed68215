[package]
name = "crust"
version = "0.1.0"
edition = "2021"
publish = false

[dependencies]
clap = "2"
rand = "0.8"
sdl2 = "0.35"
