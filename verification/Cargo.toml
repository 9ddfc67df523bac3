[package]
name = "jade_engine"
version = "0.1.0"
edition = "2021"
publish = false

[dependencies]
egui = "=0.23.0"
eframe = { version = "=0.23.0", default-features = false, features = ["glow", "default_fonts", "x11"] }
