[package]
name = "xerve"
version = "1.0.3"
edition = "2021"
publish = false

[dependencies]
eframe = { version = "=0.31.1", default-features = false, features = ["glow", "default_fonts", "x11"] }
egui_extras = { version = "=0.31.1", default-features = false }
env_logger = { version = "=0.11.11", default-features = false }
image = { version = "=0.25.10", default-features = false, features = ["png"] }
open = "=5.4.5"
sysinfo = { version = "=0.29.11", default-features = false }
