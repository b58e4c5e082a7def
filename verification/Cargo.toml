[package]
name = "chip8eframe"
version = "0.1.0"
edition = "2021"
publish = false

[dependencies]
eframe = { version = "*", default-features = false, features = ["default_fonts", "glow", "x11"] }
egui = "*"
egui_extras = "*"
rodio = { version = "*", default-features = false, features = ["playback"] }
env_logger = "*"
