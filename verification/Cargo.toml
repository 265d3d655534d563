[package]
name = "nes_emulator_rust"
version = "0.1.0"
edition = "2021"

[dependencies]
lazy_static = "1.4"
rand = "0.8"
sdl2 = "0.35"
