[package]
name = "sketch_harness"
version = "0.1.0"
edition = "2021"
publish = false

[dependencies]
egui = "0.31"
egui_glow = "0.31"
glam = "*"
glow = "0.16"
raylib = "5.5.1"
