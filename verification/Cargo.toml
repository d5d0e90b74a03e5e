[package]
name = "egui_area"
version = "0.1.0"
edition = "2021"
publish = false

[dependencies]
egui = "=0.28.1"
egui_glow = "=0.28.1"
egui_demo_lib = "=0.28.1"
gtk4 = "=0.8.2"
glib = "=0.19.9"
libloading = "=0.8.9"
