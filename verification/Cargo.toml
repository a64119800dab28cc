[package]
name = "painterly"
version = "0.1.0"
edition = "2021"
publish = false

[dependencies]
cgmath = { version = "0.18", features = ["serde"] }
clap = { version = "4", features = ["derive"] }
egui = "0.20"
egui_glium = { version = "0.20", default-features = false }
env_logger = "0.10"
glium = "0.32"
image = { version = "0.24", default-features = false, features = ["png", "jpeg"] }
log = "0.4"
rand = "0.8"
rayon = "1"
serde = { version = "1", features = ["derive"] }
tobj = "3.2"
toml = "0.7"
