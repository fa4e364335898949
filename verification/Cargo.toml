[package]
name = "screenshot-util"
version = "0.1.0"
edition = "2021"
publish = false

[dependencies]
arboard = "=3.4.1"
chrono = "=0.4.45"
dirs = "=5.0.1"
egui = "=0.29.1"
image = { version = "=0.24.9", default-features = false, features = ["png"] }
mouse_position = "=0.1.4"
