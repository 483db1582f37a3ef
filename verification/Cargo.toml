[package]
name = "magellanicus"
version = "0.1.0"
edition = "2021"
publish = false

[dependencies]
vulkano = "0.34"
glam = "0.27"
raw-window-handle = "0.5"
winit = { version = "0.30", default-features = false, features = ["rwh_05", "x11"] }
clap = { version = "4", features = ["derive"] }
ringhopper = "0.1"
